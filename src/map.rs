use crate::source::{rendered_source, Op, ENTRY_POINT};
use vstd::prelude::*;

verus! {

/// A compiled program `P` that applies one mapping operation over a buffer.
pub struct MapProgram<P> {
    program: P,
    op: Op,
}

/// A kernel `K` bound to a buffer and a scalar, with the buffer's length
/// cached as the global work size of each dispatch.
pub struct MapKernel<K> {
    kernel: K,
    work_size: usize,
}

impl<P> MapProgram<P> {
    pub closed spec fn spec_op(&self) -> Op {
        self.op
    }

    pub closed spec fn spec_program(&self) -> P {
        self.program
    }

    /// The kernel template of the recorded operator. `from_build` takes the
    /// operator apart from the program and relies on its caller to have
    /// compiled `kernel_source(&op)`.
    pub open spec fn source(&self) -> Seq<char> {
        rendered_source(self.spec_op())
    }

    /// Wraps the outcome of compiling `kernel_source(&op)`: a compiled
    /// program becomes a `MapProgram` for `op`; a driver error is returned
    /// as it came.
    pub fn from_build<E>(built: Result<P, E>, op: Op) -> (r: Result<Self, E>)
        ensures
            match built {
                Ok(p) => r matches Ok(m) && m.spec_program() == p && m.spec_op() == op
                    && m.source() == rendered_source(op),
                Err(e) => r == Err::<Self, E>(e),
            },
    {
        match built {
            Ok(program) => Ok(MapProgram { program, op }),
            Err(e) => Err(e),
        }
    }

    /// The operation this program applies.
    pub fn op(&self) -> (r: Op)
        ensures
            r == self.spec_op(),
    {
        self.op
    }

    /// The compiled program.
    pub fn program(&self) -> (r: &P)
        ensures
            *r == self.spec_program(),
    {
        &self.program
    }

    /// Name of the kernel function that the program defines.
    pub fn entry_point(&self) -> (r: &'static str)
        ensures
            r@ == ENTRY_POINT@,
    {
        ENTRY_POINT
    }
}

impl<K> MapKernel<K> {
    pub closed spec fn spec_work_size(&self) -> usize {
        self.work_size
    }

    pub closed spec fn spec_kernel(&self) -> K {
        self.kernel
    }

    /// Wraps the outcome of creating the kernel for a buffer of `buffer_len`
    /// elements: a kernel becomes a `MapKernel` whose cached work size is
    /// `buffer_len`; a driver error is returned as it came.
    pub fn from_build<E>(built: Result<K, E>, buffer_len: usize) -> (r: Result<Self, E>)
        ensures
            match built {
                Ok(k) => r matches Ok(m) && m.spec_kernel() == k && m.spec_work_size()
                    == buffer_len,
                Err(e) => r == Err::<Self, E>(e),
            },
    {
        match built {
            Ok(kernel) => Ok(MapKernel { kernel, work_size: buffer_len }),
            Err(e) => Err(e),
        }
    }

    /// The global work size of a dispatch: one work item per buffer element.
    pub fn work_size(&self) -> (r: usize)
        ensures
            r == self.spec_work_size(),
    {
        self.work_size
    }

    /// The bound kernel.
    pub fn kernel(&self) -> (r: &K)
        ensures
            *r == self.spec_kernel(),
    {
        &self.kernel
    }
}

} // verus!
