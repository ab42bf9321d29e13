//! The tensor/value bridge.
//!
//! A tensor is a native value handle that aliases a caller-owned, typed,
//! contiguous buffer — no element is ever copied in or out.  Before
//! anything crosses the ABI, the buffer's length is validated against the
//! requested shape: the shape's element count must equal the buffer's
//! element count, or binding fails locally with a shape mismatch.  The
//! validated request carries exactly what the native create-value call
//! needs; the handle the native side returns is wrapped together with the
//! element type and shape it was created with, so inference inputs and
//! outputs can be checked against a session's schema before a run.

use vstd::prelude::*;

use crate::error::OrsError;
use crate::status::spec_reply_ok;
use crate::status::spec_reply_release_delta;
use crate::status::spec_check;
use crate::status::CallReply;
use crate::status::ReleaseProbe;
use crate::status::check_status;
use crate::types::ElementType;
use crate::types::TypeToTensorElementDataType;
use crate::types::spec_byte_width;

verus! {

/// The number of elements a shape holds from dimension `i` on: the product
/// of the remaining dimensions, `1` for none.
pub open spec fn spec_count_from(shape: Seq<usize>, i: int) -> nat
    decreases shape.len() - i,
{
    if i < 0 || i >= shape.len() {
        1
    } else {
        (shape[i] * spec_count_from(shape, i + 1)) as nat
    }
}

/// The number of elements a shape holds: the product of its dimensions,
/// `1` for a zero-dimensional shape.
pub open spec fn spec_element_count(shape: Seq<usize>) -> nat {
    spec_count_from(shape, 0)
}

fn element_count_from(shape: &Vec<usize>, i: usize) -> (r: Option<usize>)
    requires
        i <= shape.len(),
    ensures
        r matches Some(c) ==> c == spec_count_from(shape@, i as int),
        r is None ==> spec_count_from(shape@, i as int) > usize::MAX,
    decreases shape.len() - i,
{
    if i == shape.len() {
        Option::Some(1)
    } else {
        let d = shape[i];
        proof {
            assert(spec_count_from(shape@, i as int) == d * spec_count_from(shape@, i + 1));
        }
        match element_count_from(shape, i + 1) {
            Option::Some(rest) => {
                let r = d.checked_mul(rest);
                proof {
                    assert(r matches Some(c) ==> c == d * rest);
                    assert(r is None ==> d * rest > usize::MAX);
                }
                r
            },
            Option::None => {
                if d == 0 {
                    proof {
                        assert(spec_count_from(shape@, i as int) == 0) by (nonlinear_arith)
                            requires
                                spec_count_from(shape@, i as int) == 0 * spec_count_from(
                                    shape@,
                                    i + 1,
                                ),
                        ;
                    }
                    Option::Some(0)
                } else {
                    proof {
                        assert(d * spec_count_from(shape@, i + 1) >= spec_count_from(
                            shape@,
                            i + 1,
                        )) by (nonlinear_arith)
                            requires
                                d >= 1,
                        ;
                    }
                    Option::None
                }
            },
        }
    }
}

/// The number of elements a shape describes, or `None` when the product of
/// its dimensions does not fit the machine's address range.
pub fn element_count(shape: &Vec<usize>) -> (r: Option<usize>)
    ensures
        r matches Some(c) ==> c == spec_element_count(shape@),
        r is None ==> spec_element_count(shape@) > usize::MAX,
{
    element_count_from(shape, 0)
}

/// A validated request for the native create-value call: everything the
/// call needs besides the buffer's address, in the form the ABI takes it.
#[derive(Debug)]
pub struct TensorRequest {
    /// The element type the buffer will be bound as.
    pub element_type: ElementType,
    /// The number of elements in the buffer, equal to the product of the
    /// shape's dimensions.
    pub element_count: usize,
    /// The shape, widened to the signed 64-bit dimensions the ABI takes.
    pub shape: Vec<i64>,
}

impl TensorRequest {
    /// The buffer length in bytes the native call takes, or `None` when it
    /// does not fit the machine's address range.
    pub fn byte_len(&self) -> (r: Option<usize>)
        ensures
            r matches Some(n) ==> n == self.element_count * spec_byte_width(self.element_type),
            r is None ==> self.element_count * spec_byte_width(self.element_type) > usize::MAX,
    {
        self.element_count.checked_mul(self.element_type.byte_width())
    }
}

/// Whether planning succeeds: the shape's element count equals the
/// buffer's.
pub open spec fn spec_plan_ok(buffer_len: nat, shape: Seq<usize>) -> bool {
    spec_element_count(shape) == buffer_len
}

/// Validate a buffer length against a shape and build the native request.
/// This is the step before any ABI call: a buffer whose element count does
/// not equal the product of the shape's dimensions is rejected here, with
/// a shape mismatch naming both counts, and nothing reaches the native
/// layer.
pub fn plan_tensor_raw(buffer_len: usize, element_type: ElementType, shape: &Vec<usize>) -> (r:
    Result<TensorRequest, OrsError>)
    requires
        forall|i: int| 0 <= i < shape@.len() ==> #[trigger] shape@[i] <= i64::MAX,
    ensures
        r is Ok <==> spec_plan_ok(buffer_len as nat, shape@),
        r matches Ok(req) ==> {
            &&& req.element_type == element_type
            &&& req.element_count == buffer_len
            &&& req.shape@.len() == shape@.len()
            &&& forall|i: int| 0 <= i < shape@.len() ==> #[trigger] req.shape@[i] == shape@[i] as i64
        },
        r matches Err(e) ==> e matches OrsError::ShapeMismatch {
            expected_elements,
            actual_elements,
        } && actual_elements == buffer_len && (match expected_elements {
            Option::Some(c) => c == spec_element_count(shape@),
            Option::None => spec_element_count(shape@) > usize::MAX,
        }),
{
    let counted = element_count(shape);
    match counted {
        Option::Some(c) if c == buffer_len => {
            let mut dims: Vec<i64> = Vec::new();
            let mut i: usize = 0;
            while i < shape.len()
                invariant
                    i <= shape.len(),
                    dims@.len() == i,
                    forall|j: int| 0 <= j < i ==> #[trigger] dims@[j] == shape@[j] as i64,
                    forall|j: int| 0 <= j < shape@.len() ==> #[trigger] shape@[j] <= i64::MAX,
                decreases shape.len() - i,
            {
                dims.push(shape[i] as i64);
                i = i + 1;
            }
            Result::Ok(TensorRequest { element_type, element_count: buffer_len, shape: dims })
        },
        _ => Result::Err(
            OrsError::ShapeMismatch { expected_elements: counted, actual_elements: buffer_len },
        ),
    }
}

/// Validate a typed buffer against a shape and build the native request,
/// with the element type taken from the buffer's type.  See
/// [`plan_tensor_raw`].
pub fn plan_tensor<T: TypeToTensorElementDataType>(buffer: &Vec<T>, shape: &Vec<usize>) -> (r:
    Result<TensorRequest, OrsError>)
    requires
        forall|i: int| 0 <= i < shape@.len() ==> #[trigger] shape@[i] <= i64::MAX,
    ensures
        r is Ok <==> spec_plan_ok(buffer@.len(), shape@),
        r matches Ok(req) ==> {
            &&& req.element_type == T::spec_element_type()
            &&& req.element_count == buffer@.len()
            &&& req.shape@.len() == shape@.len()
            &&& forall|i: int| 0 <= i < shape@.len() ==> #[trigger] req.shape@[i] == shape@[i] as i64
        },
        r matches Err(e) ==> e matches OrsError::ShapeMismatch {
            expected_elements,
            actual_elements,
        } && actual_elements == buffer@.len() && (match expected_elements {
            Option::Some(c) => c == spec_element_count(shape@),
            Option::None => spec_element_count(shape@) > usize::MAX,
        }),
{
    plan_tensor_raw(buffer.len(), T::tensor_element_data_type(), shape)
}

/// A native value handle aliasing a caller-owned buffer, together with the
/// element type and shape it was created with.  A zero handle means the
/// value has been released; releasing again is a safe no-op.  The aliased
/// buffer stays with the caller and must outlive this value.
#[derive(Debug)]
pub struct Tensor {
    pub ptr: usize,
    pub element_type: ElementType,
    /// The dimensions the value was created with, all non-negative.
    pub shape: Vec<i64>,
    /// The element count of the aliased buffer.
    pub element_count: usize,
}

/// Adopt the reply of the native create-value call made for a validated
/// request.  On success the returned tensor wraps the new handle and
/// records the request's element type and shape; on failure the status is
/// translated and released.
pub fn bind(req: TensorRequest, reply: CallReply, probe: &mut ReleaseProbe) -> (r: Result<
    Tensor,
    OrsError,
>)
    requires
        old(probe).count < u64::MAX,
    ensures
        final(probe).count == old(probe).count + spec_reply_release_delta(reply),
        r is Ok <==> spec_reply_ok(reply),
        r matches Ok(t) ==> {
            &&& t.ptr == reply.handle
            &&& t.element_type == req.element_type
            &&& t.shape == req.shape
            &&& t.element_count == req.element_count
        },
        r matches Err(e) ==> Result::<(), OrsError>::Err(e) == spec_check(reply.status),
{
    match check_status(reply.status, probe) {
        Result::Ok(()) => Result::Ok(
            Tensor {
                ptr: reply.handle,
                element_type: req.element_type,
                shape: req.shape,
                element_count: req.element_count,
            },
        ),
        Result::Err(e) => Result::Err(e),
    }
}

impl Tensor {
    /// What releasing a tensor leaves behind: the handle nulled, the
    /// recorded schema kept.
    pub open spec fn spec_released(self) -> Tensor {
        Tensor { ptr: 0, ..self }
    }

    /// How many native releases dropping this tensor performs: one for a
    /// live handle, none for an already-null one.
    pub open spec fn spec_release_delta(self) -> nat {
        if self.ptr != 0 {
            1
        } else {
            0
        }
    }

    /// Release the native value handle.  A live handle is freed exactly
    /// once; a null handle is left alone — dropping twice is safe and
    /// performs no second native call.  The aliased buffer is untouched:
    /// it belongs to the caller.
    pub fn release(&mut self, probe: &mut ReleaseProbe)
        requires
            old(probe).count < u64::MAX,
        ensures
            *final(self) == old(self).spec_released(),
            final(probe).count == old(probe).count + old(self).spec_release_delta(),
    {
        if self.ptr != 0 {
            probe.count = probe.count + 1;
        }
        self.ptr = 0;
    }
}

/// Double-free safety: a released tensor is null, and releasing it again
/// changes nothing and performs no native call.
pub proof fn lemma_tensor_release_idempotent(t: Tensor)
    ensures
        t.spec_released().spec_release_delta() == 0,
        t.spec_released().spec_released() == t.spec_released(),
{
}

} // verus!
