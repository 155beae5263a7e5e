//! The bounded characteristic value buffer and the value-or-generator
//! content source of a characteristic.

use vstd::prelude::*;

verus! {

/// The GATT maximum attribute length: no characteristic value may be longer.
pub const MAX_CHAR_LEN: usize = 512;

/// A byte buffer bounded at [`MAX_CHAR_LEN`] bytes.
///
/// Supports partial overwrite at an offset (`update`) and append
/// (`extend_from_slice`); it never grows past the bound, so callers must
/// reject writes that would.
pub struct CharValue {
    data: Vec<u8>,
}

impl View for CharValue {
    type V = Seq<u8>;

    closed spec fn view(&self) -> Seq<u8> {
        self.data@
    }
}

impl CharValue {
    #[verifier::type_invariant]
    spec fn wf(self) -> bool {
        self.data@.len() <= 512
    }

    /// The empty value.
    pub fn new() -> (r: CharValue)
        ensures
            r@ == Seq::<u8>::empty(),
    {
        CharValue { data: Vec::new() }
    }

    /// Builds a value holding `slice`, which must fit the bound.
    pub fn from_slice(slice: &[u8]) -> (r: CharValue)
        requires
            slice@.len() <= 512,
        ensures
            r@ == slice@,
    {
        let mut data: Vec<u8> = Vec::new();
        data.extend_from_slice(slice);
        CharValue { data }
    }

    pub fn len(&self) -> (r: usize)
        ensures
            r == self@.len(),
            r <= 512,
    {
        proof {
            use_type_invariant(self);
        }
        self.data.len()
    }

    pub fn as_slice(&self) -> (r: &[u8])
        ensures
            r@ == self@,
            r@.len() <= 512,
    {
        proof {
            use_type_invariant(self);
        }
        self.data.as_slice()
    }

    /// An owned copy with the same bytes.
    pub fn duplicate(&self) -> (r: CharValue)
        ensures
            r@ == self@,
    {
        proof {
            use_type_invariant(self);
        }
        CharValue::from_slice(self.data.as_slice())
    }

    /// Overlays `slice` at `offset`: the result keeps the first `offset`
    /// bytes and continues with `slice`, ending there.
    pub fn update(&mut self, slice: &[u8], offset: usize)
        requires
            offset <= old(self)@.len(),
            offset + slice@.len() <= 512,
        ensures
            final(self)@ == old(self)@.subrange(0, offset as int) + slice@,
    {
        proof {
            use_type_invariant(&*self);
        }
        let mut d: Vec<u8> = Vec::new();
        let mut i: usize = 0;
        while i < offset
            invariant
                i <= offset,
                offset <= self@.len(),
                d@ == self@.subrange(0, i as int),
            decreases offset - i,
        {
            d.push(self.data[i]);
            proof {
                assert(d@ == self@.subrange(0, i + 1 as int));
            }
            i = i + 1;
        }
        d.extend_from_slice(slice);
        *self = CharValue { data: d };
    }

    /// Appends `slice`; the combined length must fit the bound.
    pub fn extend_from_slice(&mut self, slice: &[u8])
        requires
            old(self)@.len() + slice@.len() <= 512,
        ensures
            final(self)@ == old(self)@ + slice@,
    {
        proof {
            use_type_invariant(&*self);
        }
        let mut d: Vec<u8> = Vec::new();
        d.extend_from_slice(self.data.as_slice());
        d.extend_from_slice(slice);
        *self = CharValue { data: d };
    }
}

impl Default for CharValue {
    /// The empty value.
    fn default() -> (r: CharValue)
        ensures
            r@ == Seq::<u8>::empty(),
    {
        CharValue::new()
    }
}

/// A generator of characteristic content, run on each read when installed
/// as [`ValOrFn::Fn`]. Implementors are application logic; the contract ties
/// what `produce` returns to the implementor's own `source_bytes` model.
pub trait ValueSource: Sized {
    /// The bytes the source would produce in its current state.
    spec fn source_bytes(&self) -> Seq<u8>;

    /// Produces the current value; the source may then advance its state.
    fn produce(&mut self) -> (r: CharValue)
        ensures
            r@ == old(self).source_bytes(),
    ;
}

/// A source that always produces the same stored value.
pub struct FixedSource {
    pub value: CharValue,
}

impl ValueSource for FixedSource {
    open spec fn source_bytes(&self) -> Seq<u8> {
        self.value@
    }

    fn produce(&mut self) -> (r: CharValue) {
        self.value.duplicate()
    }
}

/// A characteristic's content: either a materialized value or a generator
/// invoked at read time.
pub enum ValOrFn<G: ValueSource> {
    Value(CharValue),
    Fn(G),
}

impl<G: ValueSource> ValOrFn<G> {
    /// The bytes a read would observe right now.
    pub open spec fn bytes(&self) -> Seq<u8> {
        match self {
            ValOrFn::Value(cv) => cv@,
            ValOrFn::Fn(g) => g.source_bytes(),
        }
    }

    /// Whether the content is a materialized value (not a generator).
    pub open spec fn is_value(&self) -> bool {
        self is Value
    }

    /// The current value: a copy of the stored buffer, or whatever the
    /// generator produces.
    pub fn to_value(&mut self) -> (r: CharValue)
        ensures
            r@ == old(self).bytes(),
            final(self).is_value() == old(self).is_value(),
            old(self).is_value() ==> *final(self) == *old(self),
    {
        match self {
            ValOrFn::Value(cv) => cv.duplicate(),
            ValOrFn::Fn(g) => g.produce(),
        }
    }
}

impl<G: ValueSource> Default for ValOrFn<G> {
    /// The empty materialized value.
    fn default() -> (r: ValOrFn<G>)
        ensures
            r.bytes() == Seq::<u8>::empty(),
            r.is_value(),
    {
        ValOrFn::Value(CharValue::new())
    }
}

} // verus!
