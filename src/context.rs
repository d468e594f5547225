use vstd::prelude::*;
use crate::payload::{is_framed, lemma_inv_framed, FrameConvertedData};
use crate::quality::is_ladder_quality;

verus! {

#[verifier::external_type_specification]
#[verifier::external_body]
#[verifier::reject_recursive_types(T)]
pub struct ExReceiver<T>(std::sync::mpsc::Receiver<T>);

#[verifier::external_type_specification]
#[verifier::external_body]
pub struct ExRecvError(std::sync::mpsc::RecvError);

/// Relies on `std::sync::mpsc::Receiver::recv`: it blocks until an item arrives
/// and fails once every sender is gone.
pub assume_specification<T>[ std::sync::mpsc::Receiver::<T>::recv ](
    rx: &std::sync::mpsc::Receiver<T>,
) -> Result<T, std::sync::mpsc::RecvError>;

/// The consumer end of the pipeline: hands out framed payloads one at a time.
pub struct Context {
    rx: std::sync::mpsc::Receiver<FrameConvertedData>,
}

impl Context {
    pub fn new(rx: std::sync::mpsc::Receiver<FrameConvertedData>) -> (r: Self) {
        Context { rx }
    }

    /// Waits for the next payload; `None` once the pipeline has stopped. Every
    /// payload starts with its own total length, holds at least one codec byte,
    /// stays within the bound and was encoded at a quality of the ladder.
    pub fn get_frame(&self) -> (r: Option<FrameConvertedData>)
        ensures
            r matches Some(p) ==> is_framed(p.bytes()) && is_ladder_quality(p.spec_quality()),
    {
        match self.rx.recv() {
            Ok(p) => {
                proof {
                    use_type_invariant(&p);
                    lemma_inv_framed(p);
                }
                Some(p)
            },
            Err(_) => None,
        }
    }
}

} // verus!
