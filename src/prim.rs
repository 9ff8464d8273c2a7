use vstd::prelude::*;

verus! {

/// The integer primitives that a `#[repr(..)]` hint may name.
#[derive(Clone, Copy, Debug, PartialEq, Eq, Structural)]
pub enum PrimInt {
    U8,
    I8,
    U16,
    I16,
    U32,
    I32,
    U64,
    I64,
    U128,
    I128,
}

impl PrimInt {
    /// The name of the primitive as it is written in source.
    pub open spec fn spec_name(self) -> Seq<char> {
        match self {
            PrimInt::U8 => "u8"@,
            PrimInt::I8 => "i8"@,
            PrimInt::U16 => "u16"@,
            PrimInt::I16 => "i16"@,
            PrimInt::U32 => "u32"@,
            PrimInt::I32 => "i32"@,
            PrimInt::U64 => "u64"@,
            PrimInt::I64 => "i64"@,
            PrimInt::U128 => "u128"@,
            PrimInt::I128 => "i128"@,
        }
    }

    pub fn name(&self) -> (r: &'static str)
        ensures
            r@ == self.spec_name(),
    {
        match self {
            PrimInt::U8 => "u8",
            PrimInt::I8 => "i8",
            PrimInt::U16 => "u16",
            PrimInt::I16 => "i16",
            PrimInt::U32 => "u32",
            PrimInt::I32 => "i32",
            PrimInt::U64 => "u64",
            PrimInt::I64 => "i64",
            PrimInt::U128 => "u128",
            PrimInt::I128 => "i128",
        }
    }
}

/// The accepted primitives in their canonical order.
pub open spec fn canonical_prims() -> Seq<PrimInt> {
    seq![
        PrimInt::U8,
        PrimInt::I8,
        PrimInt::U16,
        PrimInt::I16,
        PrimInt::U32,
        PrimInt::I32,
        PrimInt::U64,
        PrimInt::I64,
        PrimInt::U128,
        PrimInt::I128,
    ]
}

pub fn canonical_order() -> (r: Vec<PrimInt>)
    ensures
        r@ == canonical_prims(),
{
    let r = vec![
        PrimInt::U8,
        PrimInt::I8,
        PrimInt::U16,
        PrimInt::I16,
        PrimInt::U32,
        PrimInt::I32,
        PrimInt::U64,
        PrimInt::I64,
        PrimInt::U128,
        PrimInt::I128,
    ];
    assert(r@ =~= canonical_prims());
    r
}

/// The first primitive, from position `k` of the canonical order on, whose
/// name is `s`.
pub open spec fn first_named_from(s: Seq<char>, k: int) -> Option<PrimInt>
    decreases 10 - k,
{
    if k < 0 || k >= 10 {
        None
    } else if canonical_prims()[k].spec_name() == s {
        Some(canonical_prims()[k])
    } else {
        first_named_from(s, k + 1)
    }
}

/// The primitive whose name is `s`, if there is one.
pub open spec fn prim_named(s: Seq<char>) -> Option<PrimInt> {
    first_named_from(s, 0)
}

/// A primitive found by name carries that name.
pub proof fn lemma_first_named_has_name(s: Seq<char>, k: int)
    ensures
        first_named_from(s, k) matches Some(p) ==> p.spec_name() == s,
    decreases 10 - k,
{
    if 0 <= k < 10 && canonical_prims()[k].spec_name() != s {
        lemma_first_named_has_name(s, k + 1);
    }
}

/// Reads the primitive named by a single-identifier path.
pub fn prim_of(name: &String) -> (r: Option<PrimInt>)
    ensures
        r == prim_named(name@),
{
    let prims = canonical_order();
    let mut k: usize = 0;
    while k < prims.len()
        invariant
            prims@ == canonical_prims(),
            0 <= k <= 10,
            first_named_from(name@, 0) == first_named_from(name@, k as int),
        decreases 10 - k,
    {
        let candidate = String::from_str(prims[k].name());
        if candidate == *name {
            return Some(prims[k]);
        }
        k += 1;
    }
    None
}

} // verus!
