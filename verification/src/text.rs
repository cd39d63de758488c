//! Annotated text fragments for UI feedback, and executable string equality.

use vstd::prelude::*;
use vstd::string::*;

verus! {

/// The affect carried by a fragment: neutral, good news or bad news.
#[derive(Clone, Copy, PartialEq, Eq, Structural, Debug)]
pub enum TextColor {
    Plain,
    Good,
    Bad,
}

/// One fragment of UI text with its color annotation.
pub struct TextSpan {
    pub text: String,
    pub color: TextColor,
}

/// The mathematical value of a span: its characters and its color.
pub struct SpanView {
    pub text: Seq<char>,
    pub color: TextColor,
}

impl View for TextSpan {
    type V = SpanView;

    open spec fn view(&self) -> SpanView {
        SpanView { text: self.text@, color: self.color }
    }
}

impl TextSpan {
    /// An uncolored fragment holding the given characters.
    pub fn plain(t: &str) -> (s: TextSpan)
        ensures
            s@.text == t@,
            s@.color == TextColor::Plain,
    {
        TextSpan { text: String::from_str(t), color: TextColor::Plain }
    }

    /// An uncolored fragment taking ownership of the given string.
    pub fn line(t: String) -> (s: TextSpan)
        ensures
            s@.text == t@,
            s@.color == TextColor::Plain,
    {
        TextSpan { text: t, color: TextColor::Plain }
    }

    /// The same characters under a new color.
    pub fn fg(self, color: TextColor) -> (s: TextSpan)
        ensures
            s@.text == self@.text,
            s@.color == color,
    {
        TextSpan { text: self.text, color }
    }
}

/// Character-for-character string equality, decided executably.
pub fn str_eq(a: &str, b: &str) -> (r: bool)
    ensures
        r == (a@ == b@),
{
    let la = a.unicode_len();
    let lb = b.unicode_len();
    if la != lb {
        proof {
            if a@ == b@ {
                assert(a@.len() == b@.len());
            }
        }
        return false;
    }
    let mut i: usize = 0;
    while i < la
        invariant
            la as nat == a@.len(),
            lb as nat == b@.len(),
            la == lb,
            i <= la,
            forall|j: int| 0 <= j < i ==> a@[j] == b@[j],
        decreases la - i,
    {
        let ca = a.get_char(i);
        let cb = b.get_char(i);
        if ca != cb {
            proof {
                if a@ == b@ {
                    assert(a@[i as int] == b@[i as int]);
                }
            }
            return false;
        }
        i += 1;
    }
    proof {
        assert(a@ =~= b@);
    }
    true
}

} // verus!
