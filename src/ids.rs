use vstd::prelude::*;

verus! {

/// Source of process-unique raw resource identifiers.
///
/// The counter is handed to whoever mints ids instead of living in a global,
/// so that independent instances can coexist.
pub struct IdCounter {
    next: u64,
}

impl IdCounter {
    /// The raw id that the next call of `new_unique_id` hands out.
    pub closed spec fn next_raw(&self) -> u64 {
        self.next
    }

    /// A counter whose first id is zero.
    pub fn new() -> (r: Self)
        ensures
            r.next_raw() == 0,
    {
        IdCounter { next: 0 }
    }

    /// A counter whose first id is `first`.
    pub fn starting_at(first: u64) -> (r: Self)
        ensures
            r.next_raw() == first,
    {
        IdCounter { next: first }
    }

    /// Whether another id can still be minted.
    pub fn has_next(&self) -> (r: bool)
        ensures
            r == (self.next_raw() < u64::MAX),
    {
        self.next < u64::MAX
    }
}

/// `id` was minted from `before`, leaving the counter as `after`.
pub open spec fn mints(before: IdCounter, id: u64, after: IdCounter) -> bool {
    &&& id == before.next_raw()
    &&& after.next_raw() == id + 1
}

/// Mints a fresh raw id.
pub fn new_unique_id(counter: &mut IdCounter) -> (r: u64)
    requires
        old(counter).next_raw() < u64::MAX,
    ensures
        mints(*old(counter), r, *final(counter)),
{
    let id = counter.next;
    counter.next = id + 1;
    id
}

/// Two ids minted from one counter, the second after the first, are
/// different: the counter never goes back, so no id is handed out twice.
pub proof fn lemma_minted_ids_distinct(
    c0: IdCounter,
    first: u64,
    c1: IdCounter,
    c2: IdCounter,
    second: u64,
    c3: IdCounter,
)
    requires
        mints(c0, first, c1),
        c1.next_raw() <= c2.next_raw(),
        mints(c2, second, c3),
    ensures
        first < second,
        first != second,
{
}

/// Identifier of a texture resource.
#[derive(PartialEq, Eq, Structural, Clone, Copy, Debug, Hash, PartialOrd, Ord)]
pub struct TexId(u64);

/// Identifier of a geometry resource.
#[derive(PartialEq, Eq, Structural, Clone, Copy, Debug, Hash, PartialOrd, Ord)]
pub struct GeometryId(u64);

/// Identifier of a static mesh resource.
#[derive(PartialEq, Eq, Structural, Clone, Copy, Debug, Hash, PartialOrd, Ord)]
pub struct StaticMeshId(u64);

/// Identifier of a window resource.
#[derive(PartialEq, Eq, Structural, Clone, Copy, Debug, Hash, PartialOrd, Ord)]
pub struct WindowId(u64);

impl TexId {
    pub closed spec fn raw(self) -> u64 {
        self.0
    }

    pub fn from_raw(raw: u64) -> (r: Self)
        ensures
            r.raw() == raw,
    {
        TexId(raw)
    }

    pub fn to_raw(&self) -> (r: u64)
        ensures
            r == self.raw(),
    {
        self.0
    }

    /// A texture id minted from `counter`.
    pub fn new_unique(counter: &mut IdCounter) -> (r: Self)
        requires
            old(counter).next_raw() < u64::MAX,
        ensures
            mints(*old(counter), r.raw(), *final(counter)),
    {
        TexId(new_unique_id(counter))
    }
}

impl GeometryId {
    pub closed spec fn raw(self) -> u64 {
        self.0
    }

    pub fn from_raw(raw: u64) -> (r: Self)
        ensures
            r.raw() == raw,
    {
        GeometryId(raw)
    }

    pub fn to_raw(&self) -> (r: u64)
        ensures
            r == self.raw(),
    {
        self.0
    }

    /// A geometry id minted from `counter`.
    pub fn new_unique(counter: &mut IdCounter) -> (r: Self)
        requires
            old(counter).next_raw() < u64::MAX,
        ensures
            mints(*old(counter), r.raw(), *final(counter)),
    {
        GeometryId(new_unique_id(counter))
    }
}

impl StaticMeshId {
    pub closed spec fn raw(self) -> u64 {
        self.0
    }

    pub fn from_raw(raw: u64) -> (r: Self)
        ensures
            r.raw() == raw,
    {
        StaticMeshId(raw)
    }

    pub fn to_raw(&self) -> (r: u64)
        ensures
            r == self.raw(),
    {
        self.0
    }

    /// A static mesh id minted from `counter`.
    pub fn new_unique(counter: &mut IdCounter) -> (r: Self)
        requires
            old(counter).next_raw() < u64::MAX,
        ensures
            mints(*old(counter), r.raw(), *final(counter)),
    {
        StaticMeshId(new_unique_id(counter))
    }
}

impl WindowId {
    pub closed spec fn raw(self) -> u64 {
        self.0
    }

    pub fn from_raw(raw: u64) -> (r: Self)
        ensures
            r.raw() == raw,
    {
        WindowId(raw)
    }

    pub fn to_raw(&self) -> (r: u64)
        ensures
            r == self.raw(),
    {
        self.0
    }

    /// A window id minted from `counter`.
    pub fn new_unique(counter: &mut IdCounter) -> (r: Self)
        requires
            old(counter).next_raw() < u64::MAX,
        ensures
            mints(*old(counter), r.raw(), *final(counter)),
    {
        WindowId(new_unique_id(counter))
    }
}

} // verus!
