//! Inbound print requests and their normalization into the renderer's data.
//!
//! Normalization keeps the label text as given, turns a blank subtitle into
//! an absent one, and lets the sizing flag default to `true` when it is not
//! supplied. An empty or blank label text is deliberately accepted and
//! printed as a blank label; no request is rejected here.

use vstd::prelude::*;

verus! {

/// An inbound print request, as decoded from the HTTP body.
pub struct PrintRequest {
    /// Primary text to print.
    pub label_text: String,
    /// Secondary text; blank values are treated as absent.
    pub subtitle: Option<String>,
    /// Layout hint controlling title sizing; `true` when not supplied.
    pub small_title: Option<bool>,
}

/// Mathematical model of a print request.
pub struct RequestView {
    pub label_text: Seq<char>,
    pub subtitle: Option<Seq<char>>,
    pub small_title: Option<bool>,
}

impl View for PrintRequest {
    type V = RequestView;

    open spec fn view(&self) -> RequestView {
        RequestView {
            label_text: self.label_text@,
            subtitle: self.subtitle.deep_view(),
            small_title: self.small_title,
        }
    }
}

/// The normalized form of a request, as the renderer's template consumes it.
pub struct RenderData {
    /// The label's primary text, under the template's key for it.
    pub grocery: String,
    /// Secondary text, absent when the request gave none or a blank one.
    pub subtitle: Option<String>,
    /// The resolved sizing flag.
    pub small_title: bool,
}

/// Mathematical model of the renderer's data.
pub struct RenderDataView {
    pub grocery: Seq<char>,
    pub subtitle: Option<Seq<char>>,
    pub small_title: bool,
}

impl View for RenderData {
    type V = RenderDataView;

    open spec fn view(&self) -> RenderDataView {
        RenderDataView {
            grocery: self.grocery@,
            subtitle: self.subtitle.deep_view(),
            small_title: self.small_title,
        }
    }
}

/// Whitespace: the Unicode White_Space set, the characters that trimming a
/// string strips from its ends.
pub open spec fn is_space(c: char) -> bool {
    let u = c as u32;
    ||| 0x9 <= u && u <= 0xD
    ||| u == 0x20
    ||| u == 0x85
    ||| u == 0xA0
    ||| u == 0x1680
    ||| 0x2000 <= u && u <= 0x200A
    ||| u == 0x2028
    ||| u == 0x2029
    ||| u == 0x202F
    ||| u == 0x205F
    ||| u == 0x3000
}

/// A string is blank when every character is whitespace; the empty string is
/// blank.
pub open spec fn is_blank(s: Seq<char>) -> bool {
    forall|i: int| 0 <= i < s.len() ==> is_space(s[i])
}

/// Decide whether a string is blank.
fn str_is_blank(s: &str) -> (b: bool)
    ensures
        b == is_blank(s@),
{
    let n: usize = s.unicode_len();
    let mut i: usize = 0;
    while i < n
        invariant
            0 <= i <= n,
            n == s@.len(),
            forall|j: int| 0 <= j < i ==> is_space(s@[j]),
        decreases n - i,
    {
        let c = s.get_char(i);
        let u: u32 = c as u32;
        let space: bool = (0x9 <= u && u <= 0xD) || u == 0x20 || u == 0x85 || u == 0xA0 || u == 0x1680
            || (0x2000 <= u && u <= 0x200A) || u == 0x2028 || u == 0x2029 || u == 0x202F
            || u == 0x205F || u == 0x3000;
        if !space {
            assert(!is_space(s@[i as int]));
            return false;
        }
        i += 1;
    }
    true
}

/// What normalization yields: text kept, a blank or missing subtitle made
/// absent, a missing sizing flag resolved to `true`.
pub open spec fn spec_normalize(r: RequestView) -> RenderDataView {
    RenderDataView {
        grocery: r.label_text,
        subtitle: match r.subtitle {
            Some(s) => if is_blank(s) {
                None
            } else {
                Some(s)
            },
            None => None,
        },
        small_title: match r.small_title {
            Some(b) => b,
            None => true,
        },
    }
}

/// Build the renderer's data from a request.
pub fn normalize(req: &PrintRequest) -> (d: RenderData)
    ensures
        d@ == spec_normalize(req@),
{
    let subtitle: Option<String> = match &req.subtitle {
        Some(s) => {
            if str_is_blank(s.as_str()) {
                None
            } else {
                Some(s.clone())
            }
        },
        None => None,
    };
    RenderData {
        grocery: req.label_text.clone(),
        subtitle,
        small_title: match req.small_title {
            Some(b) => b,
            None => true,
        },
    }
}

/// A blank subtitle and an absent one normalize to the same renderer data,
/// all other fields being equal.
pub proof fn lemma_blank_subtitle_like_absent(r1: RequestView, r2: RequestView)
    requires
        r1.label_text == r2.label_text,
        r1.small_title == r2.small_title,
        r1.subtitle matches Some(s) && is_blank(s),
        r2.subtitle is None,
    ensures
        spec_normalize(r1) == spec_normalize(r2),
{
}

/// An absent sizing flag and one set to `true` normalize to the same renderer
/// data, all other fields being equal.
pub proof fn lemma_small_title_defaults_true(r1: RequestView, r2: RequestView)
    requires
        r1.label_text == r2.label_text,
        r1.subtitle == r2.subtitle,
        r1.small_title is None,
        r2.small_title == Some(true),
    ensures
        spec_normalize(r1) == spec_normalize(r2),
{
}

} // verus!
