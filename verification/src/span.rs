//! Source locations.

use vstd::prelude::*;
use vstd::string::StringExecFns;
use crate::text::decimal_text;
use crate::text::usize_to_string;

verus! {

/// A resolved source location: file, start and end position.
#[derive(Debug, Hash, PartialEq, Eq)]
pub struct IRSpan {
    pub file_name: Option<String>,
    pub start_line: usize,
    pub start_col: usize,
    pub end_line: usize,
    pub end_col: usize,
}

/// The mathematical value of an [`IRSpan`].
pub struct SpanModel {
    pub file_name: Option<Seq<char>>,
    pub start_line: usize,
    pub start_col: usize,
    pub end_line: usize,
    pub end_col: usize,
}

impl View for IRSpan {
    type V = SpanModel;

    open spec fn view(&self) -> SpanModel {
        SpanModel {
            file_name: match self.file_name {
                Some(s) => Some(s@),
                None => None,
            },
            start_line: self.start_line,
            start_col: self.start_col,
            end_line: self.end_line,
            end_col: self.end_col,
        }
    }
}

impl Clone for IRSpan {
    fn clone(&self) -> (r: Self)
        ensures
            r@ == self@,
    {
        let file_name = match &self.file_name {
            Some(s) => Some(s.clone()),
            None => None,
        };
        IRSpan {
            file_name,
            start_line: self.start_line,
            start_col: self.start_col,
            end_line: self.end_line,
            end_col: self.end_col,
        }
    }
}

impl IRSpan {
    /// Whether two locations are the same location.
    pub fn same(&self, other: &IRSpan) -> (r: bool)
        ensures
            r == (self@ == other@),
    {
        let files = match (&self.file_name, &other.file_name) {
            (Some(a), Some(b)) => *a == *b,
            (None, None) => true,
            _ => false,
        };
        files && self.start_line == other.start_line && self.start_col == other.start_col
            && self.end_line == other.end_line && self.end_col == other.end_col
    }
}

/// The values of a sequence of locations.
pub open spec fn spans_model(spans: Seq<IRSpan>) -> Seq<SpanModel> {
    Seq::new(spans.len(), |i: int| spans[i]@)
}

/// A copy of a list of locations.
pub fn clone_spans(spans: &Vec<IRSpan>) -> (r: Vec<IRSpan>)
    ensures
        spans_model(r@) == spans_model(spans@),
{
    let mut out: Vec<IRSpan> = Vec::new();
    let mut i: usize = 0;
    while i < spans.len()
        invariant
            i <= spans.len(),
            out.len() == i,
            forall|k: int| 0 <= k < i ==> out[k]@ == spans[k]@,
        decreases spans.len() - i,
    {
        out.push(spans[i].clone());
        i += 1;
    }
    assert(spans_model(out@) =~= spans_model(spans@));
    out
}

/// Whether two lists of locations hold the same locations in the same order.
pub fn same_spans(a: &Vec<IRSpan>, b: &Vec<IRSpan>) -> (r: bool)
    ensures
        r == (spans_model(a@) == spans_model(b@)),
{
    if a.len() != b.len() {
        assert(spans_model(a@).len() != spans_model(b@).len());
        return false;
    }
    let mut i: usize = 0;
    while i < a.len()
        invariant
            i <= a.len(),
            a.len() == b.len(),
            forall|k: int| 0 <= k < i ==> a[k]@ == b[k]@,
        decreases a.len() - i,
    {
        if !a[i].same(&b[i]) {
            assert(spans_model(a@)[i as int] != spans_model(b@)[i as int]);
            return false;
        }
        i += 1;
    }
    assert(spans_model(a@) =~= spans_model(b@));
    true
}

/// A location as text: the file, or `unknown` where there is none, then line
/// and column of the start and of the end.
pub open spec fn span_text(span: SpanModel) -> Seq<char> {
    (match span.file_name {
        Some(name) => name,
        None => "unknown"@,
    }) + ":"@ + decimal_text(span.start_line as nat) + ":"@ + decimal_text(span.start_col as nat)
        + "-"@ + decimal_text(span.end_line as nat) + ":"@ + decimal_text(span.end_col as nat)
}

impl IRSpan {
    /// The location as text.
    pub fn to_text(&self) -> (r: String)
        ensures
            r@ == span_text(self@),
    {
        let file = match &self.file_name {
            Some(name) => name.clone(),
            None => "unknown".to_owned(),
        };
        file.concat(":").concat(usize_to_string(self.start_line).as_str()).concat(":").concat(
            usize_to_string(self.start_col).as_str(),
        ).concat("-").concat(usize_to_string(self.end_line).as_str()).concat(":").concat(
            usize_to_string(self.end_col).as_str(),
        )
    }
}

} // verus!
