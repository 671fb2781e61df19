//! The context of a run: the value bound to each argument key.

use vstd::hash_map::StringHashMap;
use vstd::prelude::*;

verus! {

/// Maps argument keys to their resolved values. Built once per run and only
/// read afterwards.
pub struct Context {
    values: StringHashMap<String>,
}

impl View for Context {
    type V = Map<Seq<char>, Seq<char>>;

    closed spec fn view(&self) -> Map<Seq<char>, Seq<char>> {
        Map::new(|k: Seq<char>| self.values@.contains_key(k), |k: Seq<char>| self.values@[k]@)
    }
}

/// The value bound to `key`, or the empty text where the key is unbound.
pub open spec fn value_of(ctx: Map<Seq<char>, Seq<char>>, key: Seq<char>) -> Seq<char> {
    if ctx.contains_key(key) {
        ctx[key]
    } else {
        Seq::empty()
    }
}

impl Context {
    /// A context that binds nothing.
    pub fn new() -> (ctx: Context)
        ensures
            ctx@ == Map::<Seq<char>, Seq<char>>::empty(),
    {
        let ctx = Context { values: StringHashMap::new() };
        assert(ctx@ =~= Map::<Seq<char>, Seq<char>>::empty());
        ctx
    }

    /// Binds `key` to `value`, replacing an earlier binding of the same key.
    pub fn insert(&mut self, key: String, value: String)
        ensures
            final(self)@ == old(self)@.insert(key@, value@),
    {
        self.values.insert(key, value);
        assert(self@ =~= old(self)@.insert(key@, value@));
    }

    /// Whether `key` is bound.
    pub fn contains_key(&self, key: &str) -> (found: bool)
        ensures
            found == self@.contains_key(key@),
    {
        self.values.contains_key(key)
    }

    /// The value bound to `key`, if any.
    pub fn get(&self, key: &str) -> (value: Option<&String>)
        ensures
            match value {
                Some(v) => self@.contains_key(key@) && self@[key@] == v@,
                None => !self@.contains_key(key@),
            },
    {
        self.values.get(key)
    }

    /// The number of bound keys.
    pub fn len(&self) -> (n: usize)
        ensures
            n == self@.len(),
    {
        proof {
            Self::lemma_same_domain(self);
        }
        self.values.len()
    }

    proof fn lemma_same_domain(ctx: &Context)
        ensures
            ctx@.dom() == ctx.values@.dom(),
    {
        assert(ctx@.dom() =~= ctx.values@.dom());
    }
}

} // verus!
