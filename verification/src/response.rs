//! The outgoing response as the service shapes it before the transport
//! writes it: a status, an ordered list of headers, and a body. Header
//! insertion replaces the first pair with the same name, else appends, as an
//! HTTP header map does for the names this service sets.

use vstd::prelude::*;
use crate::text::str_eq;

verus! {

/// An outgoing HTTP response, shaped entirely by this crate; the transport
/// layer only writes it out.
pub struct ProxyResponse {
    pub status: u16,
    pub headers: Vec<(String, String)>,
    pub body: String,
}

/// The mathematical content of a [`ProxyResponse`].
pub ghost struct ProxyResponseView {
    pub status: u16,
    pub headers: Seq<(Seq<char>, Seq<char>)>,
    pub body: Seq<char>,
}

impl View for ProxyResponse {
    type V = ProxyResponseView;

    open spec fn view(&self) -> ProxyResponseView {
        ProxyResponseView {
            status: self.status,
            headers: self.headers.deep_view(),
            body: self.body@,
        }
    }
}

/// The value of the first header with the given name, if any.
pub open spec fn spec_get_header(h: Seq<(Seq<char>, Seq<char>)>, name: Seq<char>) -> Option<
    Seq<char>,
>
    decreases h.len(),
{
    if h.len() == 0 {
        None
    } else if h[0].0 == name {
        Some(h[0].1)
    } else {
        spec_get_header(h.drop_first(), name)
    }
}

/// The header list after setting a name to a value: the first pair with that
/// name is replaced in place, or the pair is appended at the end.
pub open spec fn spec_set_header(
    h: Seq<(Seq<char>, Seq<char>)>,
    name: Seq<char>,
    value: Seq<char>,
) -> Seq<(Seq<char>, Seq<char>)>
    decreases h.len(),
{
    if h.len() == 0 {
        seq![(name, value)]
    } else if h[0].0 == name {
        seq![(name, value)] + h.drop_first()
    } else {
        seq![h[0]] + spec_set_header(h.drop_first(), name, value)
    }
}

/// Looking a name up after setting it finds exactly the set value.
pub proof fn lemma_get_set_same(h: Seq<(Seq<char>, Seq<char>)>, name: Seq<char>, value: Seq<char>)
    ensures
        spec_get_header(spec_set_header(h, name, value), name) == Some(value),
    decreases h.len(),
{
    if h.len() == 0 {
    } else if h[0].0 == name {
        assert((seq![(name, value)] + h.drop_first())[0] == (name, value));
    } else {
        lemma_get_set_same(h.drop_first(), name, value);
        let s = seq![h[0]] + spec_set_header(h.drop_first(), name, value);
        assert(s[0] == h[0]);
        assert(s.drop_first() =~= spec_set_header(h.drop_first(), name, value));
    }
}

/// Setting one name leaves every other name's lookup unchanged.
pub proof fn lemma_get_set_other(
    h: Seq<(Seq<char>, Seq<char>)>,
    name: Seq<char>,
    value: Seq<char>,
    other: Seq<char>,
)
    requires
        other != name,
    ensures
        spec_get_header(spec_set_header(h, name, value), other) == spec_get_header(h, other),
    decreases h.len(),
{
    if h.len() == 0 {
        let s = seq![(name, value)];
        assert(s[0].0 == name);
        assert(s.drop_first() =~= Seq::<(Seq<char>, Seq<char>)>::empty());
        assert(spec_get_header(s, other) == spec_get_header(s.drop_first(), other));
    } else if h[0].0 == name {
        let s = seq![(name, value)] + h.drop_first();
        assert(s[0] == (name, value));
        assert(s.drop_first() =~= h.drop_first());
        assert(spec_get_header(s, other) == spec_get_header(s.drop_first(), other));
        assert(spec_get_header(h, other) == spec_get_header(h.drop_first(), other));
    } else {
        lemma_get_set_other(h.drop_first(), name, value, other);
        let s = seq![h[0]] + spec_set_header(h.drop_first(), name, value);
        assert(s[0] == h[0]);
        assert(s.drop_first() =~= spec_set_header(h.drop_first(), name, value));
        if h[0].0 == other {
            assert(spec_get_header(s, other) == Some(s[0].1));
            assert(spec_get_header(h, other) == Some(h[0].1));
        } else {
            assert(spec_get_header(s, other) == spec_get_header(s.drop_first(), other));
            assert(spec_get_header(h, other) == spec_get_header(h.drop_first(), other));
        }
    }
}

impl ProxyResponse {
    /// A response with the given status and body and no headers yet.
    pub fn new(status: u16, body: String) -> (r: ProxyResponse)
        ensures
            r@.status == status,
            r@.headers == Seq::<(Seq<char>, Seq<char>)>::empty(),
            r@.body == body@,
    {
        let resp = ProxyResponse { status, headers: Vec::new(), body };
        proof {
            assert(resp@.headers =~= Seq::<(Seq<char>, Seq<char>)>::empty());
        }
        resp
    }

    /// The value of the first header with the given name, if any.
    pub fn get_header(&self, name: &str) -> (r: Option<&String>)
        ensures
            match r {
                Some(v) => spec_get_header(self@.headers, name@) == Some(v@),
                None => spec_get_header(self@.headers, name@) is None,
            },
    {
        let n = self.headers.len();
        let mut i: usize = 0;
        proof {
            assert(self@.headers.skip(0) =~= self@.headers);
        }
        while i < n
            invariant
                i <= n,
                n == self.headers.len(),
                spec_get_header(self@.headers.skip(i as int), name@) == spec_get_header(
                    self@.headers,
                    name@,
                ),
            decreases n - i,
        {
            proof {
                assert(self@.headers.skip(i as int)[0] == self@.headers[i as int]);
            }
            if str_eq(self.headers[i].0.as_str(), name) {
                return Some(&self.headers[i].1);
            }
            proof {
                assert(self@.headers.skip(i as int).drop_first() =~= self@.headers.skip(i + 1));
            }
            i = i + 1;
        }
        proof {
            assert(self@.headers.skip(n as int) =~= Seq::<(Seq<char>, Seq<char>)>::empty());
        }
        None
    }

    /// Sets a header: replaces the first pair with the same name, else
    /// appends the pair.
    pub fn set_header(&mut self, name: &str, value: String)
        ensures
            final(self)@.status == old(self)@.status,
            final(self)@.body == old(self)@.body,
            final(self)@.headers == spec_set_header(old(self)@.headers, name@, value@),
    {
        let n = self.headers.len();
        let mut i: usize = 0;
        while i < n
            invariant
                i <= n,
                n == self.headers.len(),
                *self == *old(self),
                forall|k: int| 0 <= k < i ==> #[trigger] self@.headers[k].0 != name@,
            decreases n - i,
        {
            if str_eq(self.headers[i].0.as_str(), name) {
                self.headers.set(i, (name.to_owned(), value));
                proof {
                    lemma_set_at(old(self)@.headers, i as int, name@, value@);
                    assert(final(self)@.headers =~= old(self)@.headers.update(
                        i as int,
                        (name@, value@),
                    ));
                }
                return ;
            }
            i = i + 1;
        }
        self.headers.push((name.to_owned(), value));
        proof {
            lemma_set_absent(old(self)@.headers, name@, value@);
            assert(final(self)@.headers =~= old(self)@.headers.push((name@, value@)));
        }
    }
}

/// Where the first `i` names differ from `name` and the name at `i` matches,
/// setting rewrites exactly position `i`.
proof fn lemma_set_at(h: Seq<(Seq<char>, Seq<char>)>, i: int, name: Seq<char>, value: Seq<char>)
    requires
        0 <= i < h.len(),
        forall|k: int| 0 <= k < i ==> #[trigger] h[k].0 != name,
        h[i].0 == name,
    ensures
        spec_set_header(h, name, value) == h.update(i, (name, value)),
    decreases i,
{
    if i == 0 {
        assert(spec_set_header(h, name, value) == seq![(name, value)] + h.drop_first());
        assert(seq![(name, value)] + h.drop_first() =~= h.update(0, (name, value)));
    } else {
        assert(h[0].0 != name);
        lemma_set_at(h.drop_first(), i - 1, name, value);
        assert(h.drop_first()[i - 1] == h[i]);
        assert(seq![h[0]] + h.drop_first().update(i - 1, (name, value)) =~= h.update(
            i,
            (name, value),
        ));
    }
}

/// Where no name matches, setting appends the pair at the end.
proof fn lemma_set_absent(h: Seq<(Seq<char>, Seq<char>)>, name: Seq<char>, value: Seq<char>)
    requires
        forall|k: int| 0 <= k < h.len() ==> #[trigger] h[k].0 != name,
    ensures
        spec_set_header(h, name, value) == h.push((name, value)),
    decreases h.len(),
{
    if h.len() == 0 {
        assert(seq![(name, value)] =~= h.push((name, value)));
    } else {
        assert(h[0].0 != name);
        lemma_set_absent(h.drop_first(), name, value);
        assert(seq![h[0]] + h.drop_first().push((name, value)) =~= h.push((name, value)));
    }
}

} // verus!
