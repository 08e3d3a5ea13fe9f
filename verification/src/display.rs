//! The text of the report: identity, feature list and summary.

use vstd::prelude::*;
use vstd::utf8::{encode_utf8, is_ascii_chars, is_ascii_chars_encode_utf8};
use crate::cpu_features::{
    feature_line, marker, pad_right, spaces, status_token, CpuFeatures, FeatureView,
};
use crate::cpu_info::{CpuInfo, CpuInfoView};
use crate::decimal::{append_decimal, decimal};

verus! {

/// The length of a name as the name column counts it: the number of bytes of
/// its UTF-8 encoding.
pub open spec fn name_width(name: Seq<char>) -> nat {
    encode_utf8(name).len()
}

/// The width of the name column: the largest `name_width` among the
/// features, and 0 where there is none.
pub open spec fn column_width(features: Seq<FeatureView>) -> nat
    decreases features.len(),
{
    if features.len() == 0 {
        0
    } else {
        let rest = column_width(features.drop_last());
        let last = name_width(features.last().name);
        if last > rest {
            last
        } else {
            rest
        }
    }
}

/// How many of the features are supported.
pub open spec fn available_count(features: Seq<FeatureView>) -> nat
    decreases features.len(),
{
    if features.len() == 0 {
        0
    } else {
        available_count(features.drop_last()) + if features.last().supported {
            1nat
        } else {
            0nat
        }
    }
}

/// How many of the features are not supported.
pub open spec fn unavailable_count(features: Seq<FeatureView>) -> nat
    decreases features.len(),
{
    if features.len() == 0 {
        0
    } else {
        unavailable_count(features.drop_last()) + if features.last().supported {
            0nat
        } else {
            1nat
        }
    }
}

/// The identity section: a heading and five lines.
pub open spec fn identity_section(info: CpuInfoView) -> Seq<char> {
    "CPU INFORMATION\n"@ + "CPU Name: "@ + info.name + "\n"@ + "Cores: "@ + decimal(
        info.physical_cores,
    ) + "\n"@ + "Threads: "@ + decimal(info.logical_cores) + "\n"@ + "Base Speed: "@ + decimal(
        info.base_speed,
    ) + " MHz\n"@ + "Boost Speed: "@ + decimal(info.boost_speed) + " MHz (estimated)\n"@
}

/// The lines of the features, in their order, each ended by a line break.
pub open spec fn feature_lines(features: Seq<FeatureView>, width: nat) -> Seq<char>
    decreases features.len(),
{
    if features.len() == 0 {
        Seq::empty()
    } else {
        feature_lines(features.drop_last(), width) + feature_line(features.last(), width) + "\n"@
    }
}

/// The feature section: an empty line, a heading, and one line for each
/// feature, with the name column as wide as the longest name.
pub open spec fn feature_section(features: Seq<FeatureView>) -> Seq<char> {
    "\nCPU FEATURES\n"@ + feature_lines(features, column_width(features))
}

/// The summary section: an empty line, a heading, and the three counts.
pub open spec fn summary_section(features: Seq<FeatureView>) -> Seq<char> {
    "\nSUMMARY\n"@ + "Total functions: "@ + decimal(features.len()) + "\n"@
        + "Available functions: "@ + decimal(available_count(features)) + "\n"@
        + "Unavailable functions: "@ + decimal(unavailable_count(features)) + "\n"@
}

/// The whole report.
pub open spec fn report_text(info: CpuInfoView, features: Seq<FeatureView>) -> Seq<char> {
    identity_section(info) + feature_section(features) + summary_section(features)
}

/// Every feature is counted once, as available or as unavailable: the two
/// counts of the summary add up to its total, the number of features.
pub proof fn lemma_counts_add_up(features: Seq<FeatureView>)
    ensures
        available_count(features) + unavailable_count(features) == features.len(),
    decreases features.len(),
{
    if features.len() > 0 {
        lemma_counts_add_up(features.drop_last());
    }
}

/// The UTF-8 encoding of a text has at least one byte for each character.
pub proof fn lemma_name_width_covers_chars(name: Seq<char>)
    ensures
        name.len() <= name_width(name),
    decreases name.len(),
{
    if name.len() > 0 {
        lemma_name_width_covers_chars(name.drop_first());
    }
}

/// A name of ASCII characters is as wide as it has characters.
pub proof fn lemma_name_width_ascii(name: Seq<char>)
    requires
        is_ascii_chars(name),
    ensures
        name_width(name) == name.len(),
{
    is_ascii_chars_encode_utf8(name);
}

/// The name column is at least as wide as each name, and, where there is a
/// feature, exactly as wide as one of the names.
pub proof fn lemma_column_width_is_max(features: Seq<FeatureView>)
    ensures
        forall|i: int|
            0 <= i < features.len() ==> name_width(#[trigger] features[i].name) <= column_width(
                features,
            ),
        features.len() > 0 ==> exists|i: int|
            0 <= i < features.len() && name_width(#[trigger] features[i].name) == column_width(
                features,
            ),
        features.len() == 0 ==> column_width(features) == 0,
    decreases features.len(),
{
    if features.len() > 0 {
        let rest = features.drop_last();
        lemma_column_width_is_max(rest);
        assert forall|i: int| 0 <= i < features.len() implies name_width(
            #[trigger] features[i].name,
        ) <= column_width(features) by {
            if i < rest.len() {
                assert(features[i] == rest[i]);
            }
        }
        if name_width(features.last().name) > column_width(rest) || rest.len() == 0 {
            assert(name_width(features[features.len() - 1].name) == column_width(features));
        } else {
            let k = choose|k: int|
                0 <= k < rest.len() && name_width(#[trigger] rest[k].name) == column_width(rest);
            assert(features[k] == rest[k]);
            assert(name_width(features[k].name) == column_width(features));
        }
    }
}

/// Where every name is made of ASCII characters, the name column is as wide
/// as the longest name has characters.
pub proof fn lemma_column_width_ascii(features: Seq<FeatureView>)
    requires
        forall|i: int|
            0 <= i < features.len() ==> is_ascii_chars(#[trigger] features[i].name),
    ensures
        forall|i: int|
            0 <= i < features.len() ==> (#[trigger] features[i]).name.len() <= column_width(
                features,
            ),
        features.len() > 0 ==> exists|i: int|
            0 <= i < features.len() && (#[trigger] features[i]).name.len() == column_width(
                features,
            ),
{
    lemma_column_width_is_max(features);
    assert forall|i: int| 0 <= i < features.len() implies name_width(
        (#[trigger] features[i]).name,
    ) == features[i].name.len() by {
        lemma_name_width_ascii(features[i].name);
    }
    if features.len() > 0 {
        let k = choose|k: int|
            0 <= k < features.len() && name_width(#[trigger] features[k].name) == column_width(
                features,
            );
        assert(features[k].name.len() == column_width(features));
    }
}

/// In the feature section every line has its marker at the same place. With
/// `w` the width of the name column, the line of each feature starts with the
/// feature's name, goes on with spaces up to `w` characters, and continues
/// with a space, the word `Supported:`, a space and the status word: the word
/// `Supported:` begins `w + 1` characters into the line.
pub proof fn lemma_marker_column(features: Seq<FeatureView>, i: int)
    requires
        0 <= i < features.len(),
    ensures
        ({
            let w = column_width(features) as int;
            let name = features[i].name;
            let line = feature_line(features[i], column_width(features));
            &&& name.len() <= w
            &&& line.len() == w + 12 + status_token(features[i].supported).len()
            &&& line.subrange(0, name.len() as int) == name
            &&& line.subrange(name.len() as int, w) == spaces((w - name.len()) as nat)
            &&& line[w] == ' '
            &&& line.subrange(w + 1, w + 11) == "Supported:"@
            &&& line[w + 11] == ' '
            &&& line.subrange(w + 12, line.len() as int) == status_token(features[i].supported)
        }),
{
    let width = column_width(features);
    let w = width as int;
    let name = features[i].name;
    let status = status_token(features[i].supported);
    let line = feature_line(features[i], width);
    lemma_column_width_is_max(features);
    lemma_name_width_covers_chars(name);
    reveal_strlit(" Supported: ");
    reveal_strlit("Supported:");
    let padded = pad_right(name, width);
    assert(padded.len() == w);
    assert(padded =~= name + spaces((w - name.len()) as nat));
    assert(line =~= padded + marker() + status);
    assert(line.subrange(0, name.len() as int) =~= name);
    assert(line.subrange(name.len() as int, w) =~= spaces((w - name.len()) as nat));
    assert(line.subrange(w + 1, w + 11) =~= "Supported:"@);
    assert(line.subrange(w + 12, line.len() as int) =~= status);
}

/// Where the line of feature `i` begins in the text of the lines: behind the
/// lines of the features before it, each with its line break.
pub open spec fn line_start(features: Seq<FeatureView>, width: nat, i: int) -> int
    decreases i,
{
    if i <= 0 {
        0
    } else {
        line_start(features, width, i - 1) + feature_line(features[i - 1], width).len() + 1
    }
}

/// Where a line begins depends only on the features before it.
proof fn lemma_line_start_prefix(features: Seq<FeatureView>, width: nat, count: int, i: int)
    requires
        0 <= i <= count <= features.len(),
    ensures
        line_start(features.take(count), width, i) == line_start(features, width, i),
    decreases i,
{
    if i > 0 {
        lemma_line_start_prefix(features, width, count, i - 1);
    }
}

/// The text of the lines is as long as the place where a further line would
/// begin.
proof fn lemma_feature_lines_len(features: Seq<FeatureView>, width: nat)
    ensures
        feature_lines(features, width).len() == line_start(
            features,
            width,
            features.len() as int,
        ),
    decreases features.len(),
{
    if features.len() > 0 {
        let rest = features.drop_last();
        reveal_strlit("\n");
        lemma_feature_lines_len(rest, width);
        assert(rest =~= features.take(features.len() - 1));
        lemma_line_start_prefix(features, width, features.len() - 1, features.len() - 1);
    }
}

/// The text of the lines holds the line of each feature at its place: the
/// line of feature `i` begins at `line_start`, and a line break follows it.
pub proof fn lemma_feature_lines_layout(features: Seq<FeatureView>, width: nat, i: int)
    requires
        0 <= i < features.len(),
    ensures
        ({
            let text = feature_lines(features, width);
            let start = line_start(features, width, i);
            let line = feature_line(features[i], width);
            &&& text.len() == line_start(features, width, features.len() as int)
            &&& 0 <= start
            &&& start + line.len() < text.len()
            &&& text.subrange(start, start + line.len()) == line
            &&& text[start + line.len()] == '\n'
        }),
    decreases features.len(),
{
    let count = features.len() - 1;
    let rest = features.drop_last();
    let text = feature_lines(features, width);
    let start = line_start(features, width, i);
    let line = feature_line(features[i], width);
    reveal_strlit("\n");
    lemma_feature_lines_len(features, width);
    lemma_feature_lines_len(rest, width);
    assert(rest =~= features.take(count));
    lemma_line_start_prefix(features, width, count, i);
    if i == count {
        assert(text.subrange(start, start + line.len()) =~= line);
    } else {
        lemma_feature_lines_layout(rest, width, i);
        lemma_line_start_prefix(features, width, count, count);
        assert(text.subrange(start, start + line.len()) =~= feature_lines(rest, width).subrange(
            start,
            start + line.len(),
        ));
    }
}

/// The width of the name column for `features`.
pub fn max_name_width(features: &[CpuFeatures]) -> (width: usize)
    ensures
        width == column_width(features.deep_view()),
{
    let mut width: usize = 0;
    let mut i: usize = 0;
    while i < features.len()
        invariant
            i <= features.len(),
            width == column_width(features.deep_view().take(i as int)),
        decreases features.len() - i,
    {
        let len = features[i].name.as_str().as_bytes().len();
        proof {
            let all = features.deep_view();
            assert(all.take(i + 1).drop_last() =~= all.take(i as int));
            assert(all.take(i + 1).last() == features@[i as int]@);
        }
        if len > width {
            width = len;
        }
        i = i + 1;
    }
    assert(features.deep_view().take(i as int) =~= features.deep_view());
    width
}

/// How many of `features` are supported.
pub fn count_available(features: &[CpuFeatures]) -> (count: usize)
    ensures
        count == available_count(features.deep_view()),
        count <= features.len(),
{
    let mut count: usize = 0;
    let mut i: usize = 0;
    while i < features.len()
        invariant
            i <= features.len(),
            count <= i,
            count == available_count(features.deep_view().take(i as int)),
        decreases features.len() - i,
    {
        proof {
            let all = features.deep_view();
            assert(all.take(i + 1).drop_last() =~= all.take(i as int));
            assert(all.take(i + 1).last() == features@[i as int]@);
        }
        if features[i].supported {
            count = count + 1;
        }
        i = i + 1;
    }
    assert(features.deep_view().take(i as int) =~= features.deep_view());
    count
}

/// Appends the identity section.
fn append_identity(out: &mut String, info: &CpuInfo)
    ensures
        final(out)@ == old(out)@ + identity_section(info@),
{
    let mut text = String::new();
    text.append("CPU INFORMATION\n");
    assert(text@ =~= "CPU INFORMATION\n"@);
    text.append("CPU Name: ");
    text.append(info.name.as_str());
    text.append("\n");
    text.append("Cores: ");
    append_decimal(&mut text, info.physical_cores as u64);
    text.append("\n");
    text.append("Threads: ");
    append_decimal(&mut text, info.logical_cores as u64);
    text.append("\n");
    text.append("Base Speed: ");
    append_decimal(&mut text, info.base_speed);
    text.append(" MHz\n");
    text.append("Boost Speed: ");
    append_decimal(&mut text, info.boost_speed);
    text.append(" MHz (estimated)\n");
    out.append(text.as_str());
}

/// Appends the feature section.
fn append_features(out: &mut String, features: &[CpuFeatures])
    ensures
        final(out)@ == old(out)@ + feature_section(features.deep_view()),
{
    let width = max_name_width(features);
    let mut text = String::new();
    text.append("\nCPU FEATURES\n");
    assert(text@ =~= "\nCPU FEATURES\n"@);
    let mut i: usize = 0;
    while i < features.len()
        invariant
            i <= features.len(),
            width == column_width(features.deep_view()),
            text@ == "\nCPU FEATURES\n"@ + feature_lines(
                features.deep_view().take(i as int),
                width as nat,
            ),
        decreases features.len() - i,
    {
        let line = features[i].format(width);
        proof {
            let all = features.deep_view();
            let head = "\nCPU FEATURES\n"@;
            assert(all.take(i + 1).drop_last() =~= all.take(i as int));
            assert(all.take(i + 1).last() == features@[i as int]@);
            assert(head + feature_lines(all.take(i as int), width as nat) + line@ + "\n"@ =~= head
                + feature_lines(all.take(i + 1), width as nat));
        }
        text.append(line.as_str());
        text.append("\n");
        i = i + 1;
    }
    assert(features.deep_view().take(i as int) =~= features.deep_view());
    out.append(text.as_str());
}

/// Appends the summary section. The number of unavailable features is what
/// is left of the total once the available ones are taken away.
fn append_summary(out: &mut String, features: &[CpuFeatures])
    ensures
        final(out)@ == old(out)@ + summary_section(features.deep_view()),
{
    let total = features.len();
    let available = count_available(features);
    let unavailable = total - available;
    proof {
        lemma_counts_add_up(features.deep_view());
    }
    let mut text = String::new();
    text.append("\nSUMMARY\n");
    assert(text@ =~= "\nSUMMARY\n"@);
    text.append("Total functions: ");
    append_decimal(&mut text, total as u64);
    text.append("\n");
    text.append("Available functions: ");
    append_decimal(&mut text, available as u64);
    text.append("\n");
    text.append("Unavailable functions: ");
    append_decimal(&mut text, unavailable as u64);
    text.append("\n");
    out.append(text.as_str());
}

/// Renders the report for a processor and its feature catalog.
pub fn format_output(cpu_info: &CpuInfo, features: &[CpuFeatures]) -> (output: String)
    ensures
        output@ == report_text(cpu_info@, features.deep_view()),
{
    let mut output = String::new();
    append_identity(&mut output, cpu_info);
    append_features(&mut output, features);
    append_summary(&mut output, features);
    assert(output@ =~= report_text(cpu_info@, features.deep_view()));
    output
}

} // verus!
