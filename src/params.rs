use vstd::prelude::*;

use crate::address::{appended_url, pairs_view, Url};

verus! {

/// Query parameters: text keys, each held once, with text values.
#[derive(Debug)]
pub struct QueryParams {
    inner: Vec<(String, String)>,
}

impl View for QueryParams {
    type V = Seq<(Seq<char>, Seq<char>)>;

    closed spec fn view(&self) -> Seq<(Seq<char>, Seq<char>)> {
        pairs_view(self.inner@)
    }
}

/// No key occurs twice among the pairs.
pub open spec fn keys_unique(pairs: Seq<(Seq<char>, Seq<char>)>) -> bool {
    forall|i: int, j: int|
        0 <= i < pairs.len() && 0 <= j < pairs.len() && i != j ==> #[trigger] pairs[i].0
            != #[trigger] pairs[j].0
}

/// The position of `key` among the pairs, if it is there.
pub open spec fn key_index(pairs: Seq<(Seq<char>, Seq<char>)>, key: Seq<char>) -> Option<int> {
    if exists|i: int| 0 <= i < pairs.len() && #[trigger] pairs[i].0 == key {
        Some(choose|i: int| 0 <= i < pairs.len() && #[trigger] pairs[i].0 == key)
    } else {
        None
    }
}

/// The pairs after `key` is set to `value`: overwritten in place where the
/// key is there, added at the end where it is not.
pub open spec fn pairs_set(
    pairs: Seq<(Seq<char>, Seq<char>)>,
    key: Seq<char>,
    value: Seq<char>,
) -> Seq<(Seq<char>, Seq<char>)> {
    match key_index(pairs, key) {
        Some(i) => pairs.update(i, (key, value)),
        None => pairs.push((key, value)),
    }
}

impl QueryParams {
    #[verifier::type_invariant]
    spec fn keys_are_unique(&self) -> bool {
        keys_unique(self@)
    }

    /// No parameters.
    pub fn new() -> (r: QueryParams)
        ensures
            r@ == Seq::<(Seq<char>, Seq<char>)>::empty(),
    {
        let r = QueryParams { inner: Vec::new() };
        assert(r@ =~= Seq::<(Seq<char>, Seq<char>)>::empty());
        r
    }

    /// Sets `key` to `value`, overwriting an earlier value of the key.
    pub fn set(&mut self, key: String, value: String)
        ensures
            keys_unique(final(self)@),
            final(self)@ == pairs_set(old(self)@, key@, value@),
    {
        proof {
            use_type_invariant(&*self);
        }
        let ghost pairs = self@;
        let mut inner: Vec<(String, String)> = Vec::new();
        std::mem::swap(&mut inner, &mut self.inner);
        assert(pairs_view(inner@) == pairs);
        let n = inner.len();
        let mut i: usize = 0;
        while i < n && inner[i].0 != key
            invariant
                n == inner.len(),
                pairs_view(inner@) == pairs,
                pairs.len() == n,
                keys_unique(pairs),
                0 <= i <= n,
                forall|j: int| 0 <= j < i ==> #[trigger] pairs[j].0 != key@,
            decreases n - i,
        {
            i = i + 1;
        }
        if i < n {
            assert(pairs[i as int].0 == key@);
            let ghost k = choose|j: int| 0 <= j < pairs.len() && #[trigger] pairs[j].0 == key@;
            assert(pairs[k].0 == key@);
            assert(k == i);
            inner.set(i, (key, value));
            assert(pairs_view(inner@) =~= pairs.update(i as int, (key@, value@)));
        } else {
            assert(key_index(pairs, key@) is None);
            inner.push((key, value));
            assert(pairs_view(inner@) =~= pairs.push((key@, value@)));
        }
        self.inner = inner;
    }

    /// The pairs, in the order in which their keys were first set.
    pub fn iter_tuples(&self) -> (r: &Vec<(String, String)>)
        ensures
            pairs_view(r@) == self@,
            keys_unique(self@),
    {
        proof {
            use_type_invariant(self);
        }
        &self.inner
    }

    /// Appends every pair to the query of `url`, percent-encoded.
    pub fn append_to_url(&self, url: &mut Url)
        ensures
            final(url)@ == appended_url(old(url)@, self@),
    {
        url.extend_query(&self.inner);
    }
}

impl Default for QueryParams {
    fn default() -> (r: QueryParams)
        ensures
            r@ == Seq::<(Seq<char>, Seq<char>)>::empty(),
    {
        QueryParams::new()
    }
}

} // verus!
