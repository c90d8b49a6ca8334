use std::fmt::Debug;
use std::fmt::Write;
use vstd::prelude::*;
use vstd::string::StringExecFns;

verus! {

/// `inner` between a pair of square brackets.
pub open spec fn in_brackets(inner: Seq<char>) -> Seq<char> {
    seq!['['] + inner + seq![']']
}

/// The texts one after the other, with a comma and a space between each two.
pub open spec fn joined(texts: Seq<Seq<char>>) -> Seq<char>
    decreases texts.len(),
{
    if texts.len() == 0 {
        Seq::empty()
    } else if texts.len() == 1 {
        texts.last()
    } else {
        joined(texts.drop_last()) + seq![',', ' '] + texts.last()
    }
}

/// One more text joins behind a comma and a space, unless it is the first.
proof fn lemma_joined_next(texts: Seq<Seq<char>>, n: int)
    requires
        0 <= n < texts.len(),
    ensures
        joined(texts.take(n + 1)) == if n == 0 {
            texts[n]
        } else {
            joined(texts.take(n)) + seq![',', ' '] + texts[n]
        },
{
    assert(texts.take(n + 1).drop_last() =~= texts.take(n));
}

/// Puts `inner` between a pair of square brackets.
pub fn bracketed(inner: &str) -> (text: String)
    ensures
        text@ == in_brackets(inner@),
{
    proof {
        reveal_strlit("[");
        reveal_strlit("]");
    }
    let mut text = String::from_str("[");
    text.append(inner);
    text.append("]");
    text
}

/// Writes `texts` out as a list: in order, separated by a comma and a space,
/// between a pair of square brackets.
pub fn listed(texts: &Vec<String>) -> (text: String)
    ensures
        text@ == in_brackets(joined(texts.deep_view())),
{
    let ghost parts = texts.deep_view();
    let mut inner = String::new();
    let mut at: usize = 0;
    while at < texts.len()
        invariant
            at <= texts.len(),
            parts == texts.deep_view(),
            parts.len() == texts.len(),
            inner@ == joined(parts.take(at as int)),
        decreases texts.len() - at,
    {
        proof {
            reveal_strlit(", ");
            lemma_joined_next(parts, at as int);
            assert(parts[at as int] == texts[at as int]@);
        }
        if at > 0 {
            inner.append(", ");
        }
        inner.append(texts[at].as_str());
        at += 1;
    }
    proof {
        assert(parts.take(at as int) =~= parts);
    }
    bracketed(inner.as_str())
}

/// The text that `value`'s `Debug` impl writes for `{:?}`, by `write!` into
/// a new `String`; `None` where the impl reports an error. The impl is the
/// caller's, so nothing is claimed of the text nor of when there is one.
#[verifier::external_body]
pub(crate) fn debug_text<D: Debug>(value: &D) -> Option<String> {
    let mut text = String::new();
    match write!(text, "{:?}", value) {
        Ok(()) => Some(text),
        Err(_) => None,
    }
}

} // verus!
