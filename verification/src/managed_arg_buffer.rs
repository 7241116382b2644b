//! The arguments of a contract call.

use crate::codec::TopEncode;
use crate::error::EncodeError;
use crate::managed_buffer::ManagedBuffer;
use vstd::prelude::*;

verus! {

/// The arguments of a call, in order, each as the bytes of its top-level
/// encoding. Its view is the sequence of these byte sequences.
#[derive(Debug)]
pub struct ManagedArgBuffer {
    data: Vec<ManagedBuffer>,
}

impl View for ManagedArgBuffer {
    type V = Seq<Seq<u8>>;

    closed spec fn view(&self) -> Seq<Seq<u8>> {
        self.data@.map_values(|b: ManagedBuffer| b@)
    }
}

impl ManagedArgBuffer {
    /// No arguments.
    pub fn new() -> (r: Self)
        ensures
            r@ == Seq::<Seq<u8>>::empty(),
    {
        ManagedArgBuffer { data: Vec::new() }
    }

    pub fn len(&self) -> (r: usize)
        ensures
            r == self@.len(),
    {
        self.data.len()
    }

    pub fn is_empty(&self) -> (r: bool)
        ensures
            r == (self@.len() == 0),
    {
        self.data.len() == 0
    }

    /// The argument at `index`.
    pub fn get(&self, index: usize) -> (r: &ManagedBuffer)
        requires
            index < self@.len(),
        ensures
            r@ == self@[index as int],
    {
        &self.data[index]
    }

    /// The argument at `index`, if there is one.
    pub fn try_get(&self, index: usize) -> (r: Option<&ManagedBuffer>)
        ensures
            match r {
                Some(arg) => index < self@.len() && arg@ == self@[index as int],
                None => index >= self@.len(),
            },
    {
        if index < self.data.len() {
            Some(&self.data[index])
        } else {
            None
        }
    }

    /// Adds the bytes of `arg` as the last argument.
    pub fn push_arg_raw(&mut self, arg: ManagedBuffer)
        ensures
            final(self)@ == old(self)@.push(arg@),
    {
        self.data.push(arg);
    }

    /// Adds the top-level encoding of `arg` as the last argument, or changes
    /// nothing where `arg` cannot be encoded.
    pub fn push_arg<T: TopEncode>(&mut self, arg: &T) -> (r: Result<(), EncodeError>)
        ensures
            r is Ok <==> arg.top_encodable(),
            r is Ok ==> final(self)@ == old(self)@.push(arg.top_encoding()),
            r is Err ==> final(self)@ == old(self)@,
    {
        match arg.top_encode() {
            Ok(bytes) => {
                self.push_arg_raw(ManagedBuffer::from(bytes));
                Ok(())
            },
            Err(e) => Err(e),
        }
    }

    /// The arguments of `self` followed by those of `other`.
    pub fn concat(self, other: ManagedArgBuffer) -> (r: Self)
        ensures
            r@ == self@ + other@,
    {
        let mut data = self.data;
        let mut tail = other.data;
        data.append(&mut tail);
        ManagedArgBuffer { data }
    }
}

impl Clone for ManagedArgBuffer {
    fn clone(&self) -> (r: Self)
        ensures
            r@ == self@,
    {
        let mut data: Vec<ManagedBuffer> = Vec::new();
        let mut i: usize = 0;
        while i < self.data.len()
            invariant
                i <= self.data.len(),
                data@.len() == i,
                forall|j: int| 0 <= j < i ==> data@[j]@ == self.data@[j]@,
            decreases self.data.len() - i,
        {
            data.push(self.data[i].clone());
            i += 1;
        }
        ManagedArgBuffer { data }
    }
}

impl PartialEq for ManagedArgBuffer {
    fn eq(&self, other: &Self) -> (r: bool) {
        if self.data.len() != other.data.len() {
            assert(self@.len() != other@.len());
            return false;
        }
        let mut i: usize = 0;
        while i < self.data.len()
            invariant
                i <= self.data.len(),
                self.data.len() == other.data.len(),
                forall|j: int| 0 <= j < i ==> self.data@[j]@ == other.data@[j]@,
            decreases self.data.len() - i,
        {
            if self.data[i] != other.data[i] {
                assert(self@[i as int] != other@[i as int]);
                return false;
            }
            i += 1;
        }
        assert(self@ =~= other@);
        true
    }
}

impl Eq for ManagedArgBuffer {}

impl vstd::std_specs::cmp::PartialEqSpecImpl for ManagedArgBuffer {
    open spec fn obeys_eq_spec() -> bool {
        true
    }

    open spec fn eq_spec(&self, other: &Self) -> bool {
        self@ == other@
    }
}

} // verus!
