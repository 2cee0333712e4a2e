//! A map with one value for each variant of an enum, held in a vector.

use vstd::prelude::*;

verus! {

/// An enum whose variants are numbered from zero, in the order of their
/// declaration.
pub trait EnumKey: Sized {
    /// The number of variants.
    spec fn count() -> nat;

    /// The position of a variant.
    spec fn ordinal(self) -> nat;

    /// The variant at a position.
    spec fn nth(i: nat) -> Self;

    /// Every variant has a position below `count`, and `nth` finds it again.
    proof fn lemma_ordinal(self)
        ensures
            self.ordinal() < Self::count(),
            Self::nth(self.ordinal()) == self,
    ;

    /// Every position below `count` is that of its variant.
    proof fn lemma_nth(i: nat)
        requires
            i < Self::count(),
        ensures
            Self::nth(i).ordinal() == i,
    ;

    fn variant_count() -> (n: usize)
        ensures
            n == Self::count(),
    ;

    fn to_index(&self) -> (i: usize)
        ensures
            i == self.ordinal(),
            i < Self::count(),
    ;

    fn from_index(i: usize) -> (key: Self)
        requires
            i < Self::count(),
        ensures
            key == Self::nth(i as nat),
            key.ordinal() == i,
    ;
}

/// One value for each variant of `E`.
#[derive(Debug)]
pub struct EnumMap<E, V> {
    map: Vec<V>,
    _e: core::marker::PhantomData<E>,
}

impl<E: EnumKey, V> EnumMap<E, V> {
    /// The vector that holds the values, in the order of the variants.
    pub closed spec fn values(self) -> Vec<V> {
        self.map
    }

    /// The map that holds the given values.
    pub closed spec fn of(values: Vec<V>) -> Self {
        Self { map: values, _e: core::marker::PhantomData }
    }

    /// The values, in the order of the variants.
    pub open spec fn view(&self) -> Seq<V> {
        self.values()@
    }

    /// A map is the one that holds its values.
    pub proof fn lemma_of_values(self)
        ensures
            Self::of(self.values()) == self,
            Self::of(self.values()).values() == self.values(),
    {
    }

    /// The map that holds given values holds just those.
    pub proof fn lemma_values_of(values: Vec<V>)
        ensures
            Self::of(values).values() == values,
    {
    }

    /// There is exactly one value for each variant.
    pub open spec fn wf(&self) -> bool {
        self@.len() == E::count()
    }

    /// The value held for `key`.
    pub open spec fn value(&self, key: E) -> V {
        self@[key.ordinal() as int]
    }

    /// A map that holds a clone of `initial` for every variant.
    pub fn from_value(initial: V) -> (map: Self) where V: Clone
        ensures
            map.wf(),
            forall|i: int| 0 <= i < map@.len() ==> cloned(initial, #[trigger] map@[i]),
    {
        let n: usize = E::variant_count();
        let mut values: Vec<V> = Vec::with_capacity(n);
        let mut i: usize = 0;
        while i < n
            invariant
                n == E::count(),
                i <= n,
                values@.len() == i,
                forall|j: int| 0 <= j < values@.len() ==> cloned(initial, #[trigger] values@[j]),
            decreases n - i,
        {
            values.push(initial.clone());
            i += 1;
        }
        Self { map: values, _e: core::marker::PhantomData }
    }

    /// A map that holds, for every variant, what `cb` returns for it.
    pub fn from_fn<F>(cb: F) -> (map: Self) where F: Fn(E) -> V
        requires
            forall|key: E| #[trigger] cb.requires((key,)),
        ensures
            map.wf(),
            forall|i: int|
                0 <= i < map@.len() ==> cb.ensures((E::nth(i as nat),), #[trigger] map@[i]),
    {
        let n: usize = E::variant_count();
        let mut values: Vec<V> = Vec::with_capacity(n);
        let mut i: usize = 0;
        while i < n
            invariant
                n == E::count(),
                i <= n,
                values@.len() == i,
                forall|key: E| #[trigger] cb.requires((key,)),
                forall|j: int|
                    0 <= j < values@.len() ==> cb.ensures(
                        (E::nth(j as nat),),
                        #[trigger] values@[j],
                    ),
            decreases n - i,
        {
            let key: E = E::from_index(i);
            let value: V = cb(key);
            values.push(value);
            i += 1;
        }
        Self { map: values, _e: core::marker::PhantomData }
    }

    /// A map over the given values, if there is exactly one for each variant.
    pub fn from_vec(values: Vec<V>) -> (map: Option<Self>)
        ensures
            map is Some <==> values@.len() == E::count(),
            map is Some ==> map->0 == Self::of(values) && map->0@ == values@,
    {
        if values.len() == E::variant_count() {
            Some(Self { map: values, _e: core::marker::PhantomData })
        } else {
            None
        }
    }

    /// The values, in the order of the variants.
    pub fn into_vec(self) -> (values: Vec<V>)
        ensures
            values == self.values(),
    {
        self.map
    }

    /// The value held for `key`.
    pub fn get(&self, key: E) -> (value: &V)
        requires
            self.wf(),
        ensures
            *value == self.value(key),
    {
        let i: usize = key.to_index();
        &self.map[i]
    }

    /// Replaces the value held for `key` and returns the one held before.
    pub fn set(&mut self, key: E, value: V) -> (previous: V)
        requires
            old(self).wf(),
        ensures
            final(self).wf(),
            previous == old(self).value(key),
            final(self)@ == old(self)@.update(key.ordinal() as int, value),
    {
        let i: usize = key.to_index();
        let mut slot: V = value;
        core::mem::swap(&mut self.map[i], &mut slot);
        slot
    }

    /// An iterator over the values, each paired with its variant.
    pub fn into_iter(self) -> (iter: EnumMapIter<E, V>)
        requires
            self.wf(),
        ensures
            iter.wf(),
            iter.remaining() == self@,
            iter.position() == 0,
    {
        EnumMapIter::new(self.map)
    }
}

/// Hands out the values of a map from the front, each paired with the
/// variant whose position is the number of values handed out before it.
pub struct EnumMapIter<E, V> {
    data: Vec<V>,
    index: usize,
    _e: core::marker::PhantomData<E>,
}

impl<E: EnumKey, V> EnumMapIter<E, V> {
    /// The values not yet handed out.
    pub closed spec fn remaining(&self) -> Seq<V> {
        self.data@
    }

    /// The number of values handed out so far.
    pub closed spec fn position(&self) -> nat {
        self.index as nat
    }

    /// Every position that `next` can reach is that of a variant: this
    /// call of `next` and all that follow have what they require.
    pub open spec fn wf(&self) -> bool {
        self.position() + self.remaining().len() <= 2 * E::count()
    }

    /// An iterator that has handed out nothing of `data` yet. It takes any
    /// values; it is `next` that asks for a variant at the position it is
    /// about to hand out.
    pub fn new(data: Vec<V>) -> (iter: Self)
        ensures
            iter.remaining() == data@,
            iter.position() == 0,
            iter.wf() <==> data@.len() <= 2 * E::count(),
    {
        Self { data, index: 0, _e: core::marker::PhantomData }
    }

    /// Hands out the value at the front with the variant at the current
    /// position, for as long as the position is below the number of values
    /// still held.
    pub fn next(&mut self) -> (item: Option<(E, V)>)
        requires
            old(self).position() < old(self).remaining().len() ==> old(self).position()
                < E::count(),
        ensures
            old(self).wf() ==> final(self).wf(),
            match item {
                None => {
                    &&& old(self).position() >= old(self).remaining().len()
                    &&& final(self).remaining() == old(self).remaining()
                    &&& final(self).position() == old(self).position()
                },
                Some((key, value)) => {
                    &&& old(self).position() < old(self).remaining().len()
                    &&& key == E::nth(old(self).position())
                    &&& value == old(self).remaining()[0]
                    &&& final(self).remaining() == old(self).remaining().subrange(
                        1,
                        old(self).remaining().len() as int,
                    )
                    &&& final(self).position() == old(self).position() + 1
                },
            },
    {
        if self.index >= self.data.len() {
            None
        } else {
            let key: E = E::from_index(self.index);
            let value: V = self.data.remove(0);
            self.index += 1;
            Some((key, value))
        }
    }
}

} // verus!
