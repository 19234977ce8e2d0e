//! The decision rules of the leaf-measure bridge.
//!
//! During a layout pass the engine asks for the size of a leaf.  The bridge
//! answers without consulting the host when it can: once an error has been
//! captured every further call returns zero so the engine can unwind; a leaf
//! whose width and height are both already known returns them verbatim; a
//! leaf with no attached context returns zero.  Only otherwise is the host's
//! measure function consulted.  After the pass, a captured host error takes
//! priority over an engine error.

use vstd::prelude::*;
use crate::errors::WaxyError;

verus! {

/// What the bridge does for one leaf-measure request.  Sizes are bit
/// patterns of the numbers, as everywhere in this crate.
#[derive(Clone, Copy, Debug, PartialEq, Eq, Structural)]
pub enum MeasureDecision {
    /// Return this size without consulting the host.
    UseKnown { width_bits: u32, height_bits: u32 },
    /// Return the zero size without consulting the host.
    Zero,
    /// Convert the inputs and call the host's measure function.
    AskHost,
}

/// Decide how to answer one leaf-measure request.
///
/// The host is consulted only when no error has been captured yet, at least
/// one of the two dimensions is unknown, and the node carries a context.
pub fn measure_decision(
    already_failed: bool,
    known_width: Option<u32>,
    known_height: Option<u32>,
    has_context: bool,
) -> (r: MeasureDecision)
    ensures
        already_failed ==> r == MeasureDecision::Zero,
        !already_failed && known_width is Some && known_height is Some ==> r
            == (MeasureDecision::UseKnown {
            width_bits: known_width->Some_0,
            height_bits: known_height->Some_0,
        }),
        !already_failed && !(known_width is Some && known_height is Some) && !has_context ==> r
            == MeasureDecision::Zero,
        !already_failed && !(known_width is Some && known_height is Some) && has_context ==> r
            == MeasureDecision::AskHost,
{
    if already_failed {
        MeasureDecision::Zero
    } else {
        match (known_width, known_height) {
            (Some(w), Some(h)) => MeasureDecision::UseKnown { width_bits: w, height_bits: h },
            _ => if has_context {
                MeasureDecision::AskHost
            } else {
                MeasureDecision::Zero
            },
        }
    }
}

/// Why a layout pass failed: an error raised by the host's measure function,
/// propagated unchanged, or an error of the engine.
#[derive(Clone, Debug, PartialEq, Eq)]
pub enum LayoutFailure<H> {
    Host(H),
    Engine(WaxyError),
}

/// Combine what a layout pass produced: a host error captured during the
/// pass wins over an engine error, which wins over success.
pub fn resolve_layout_outcome<H>(
    host_error: Option<H>,
    engine_result: Result<(), WaxyError>,
) -> (r: Result<(), LayoutFailure<H>>)
    ensures
        host_error is Some ==> r == Err::<(), LayoutFailure<H>>(
            LayoutFailure::Host(host_error->0),
        ),
        host_error is None && engine_result is Err ==> r == Err::<(), LayoutFailure<H>>(
            LayoutFailure::Engine(engine_result->Err_0),
        ),
        host_error is None && engine_result is Ok ==> r == Ok::<(), LayoutFailure<H>>(()),
{
    match host_error {
        Some(e) => Err(LayoutFailure::Host(e)),
        None => match engine_result {
            Err(e) => Err(LayoutFailure::Engine(e)),
            Ok(()) => Ok(()),
        },
    }
}

} // verus!
