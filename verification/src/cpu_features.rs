//! One entry of the feature catalog and the text of its report line.

use vstd::prelude::*;

verus! {

/// A named processor feature and whether the host supports it.
#[derive(Debug, Clone, PartialEq, Eq)]
pub struct CpuFeatures {
    pub name: String,
    pub supported: bool,
}

/// The mathematical value of a [`CpuFeatures`]: its name as a sequence of
/// characters, and the flag.
pub struct FeatureView {
    pub name: Seq<char>,
    pub supported: bool,
}

impl View for CpuFeatures {
    type V = FeatureView;

    open spec fn view(&self) -> FeatureView {
        FeatureView { name: self.name@, supported: self.supported }
    }
}

impl DeepView for CpuFeatures {
    type V = FeatureView;

    open spec fn deep_view(&self) -> FeatureView {
        self@
    }
}

/// `n` space characters.
pub open spec fn spaces(n: nat) -> Seq<char> {
    Seq::new(n, |i: int| ' ')
}

/// `text` followed by as many spaces as it takes to reach `width` characters.
/// A text that is already that long, or longer, is left as it is: nothing is
/// cut off.
pub open spec fn pad_right(text: Seq<char>, width: nat) -> Seq<char> {
    if text.len() >= width {
        text
    } else {
        text + spaces((width - text.len()) as nat)
    }
}

/// The word that a report line ends with.
pub open spec fn status_token(supported: bool) -> Seq<char> {
    if supported {
        "YES!"@
    } else {
        "NO!"@
    }
}

/// The text between the name column and the status word.
pub open spec fn marker() -> Seq<char> {
    " Supported: "@
}

/// One line of the feature section, without its line break: the name, padded
/// on the right to `width` characters, the marker, and the status word.
pub open spec fn feature_line(feature: FeatureView, width: nat) -> Seq<char> {
    pad_right(feature.name, width) + marker() + status_token(feature.supported)
}

impl CpuFeatures {
    /// Makes an entry with a copy of `name`.
    pub fn new(name: &str, supported: bool) -> (feature: Self)
        ensures
            feature@ == (FeatureView { name: name@, supported }),
    {
        Self { name: name.to_owned(), supported }
    }

    /// Renders the entry as a report line whose name column is `width`
    /// characters wide.
    pub fn format(&self, width: usize) -> (line: String)
        ensures
            line@ == feature_line(self@, width as nat),
    {
        let status = if self.supported {
            "YES!"
        } else {
            "NO!"
        };
        let used = self.name.as_str().unicode_len();
        let mut line = self.name.clone();
        let mut filled = used;
        while filled < width
            invariant
                used <= filled,
                used == self.name@.len(),
                filled > used ==> filled <= width,
                line@ == self.name@ + spaces((filled - used) as nat),
            decreases width - filled,
        {
            proof {
                reveal_strlit(" ");
                assert(" "@ =~= seq![' ']);
                assert(spaces((filled - used) as nat) + seq![' '] =~= spaces(
                    (filled + 1 - used) as nat,
                ));
            }
            line.append(" ");
            filled = filled + 1;
        }
        assert(line@ == pad_right(self.name@, width as nat)) by {
            if used >= width {
                assert(self.name@ + spaces(0) =~= self.name@);
            }
        }
        line.append(" Supported: ");
        line.append(status);
        line
    }
}

} // verus!
