//! What the application window's commands make of the engine's answers:
//! the expected payload, or the error text shown to the user.

use vstd::prelude::*;
use vstd::string::*;
use crate::service::Response;
use crate::types::{AudioDevice, CudaStatus, ModelStatus, PttStatus, TranscribeStatus};

verus! {

/// The error text of an answer of the wrong kind: the engine's own message
/// for an error answer, else `Unexpected response`.
pub open spec fn answer_error_text(response: Response) -> Seq<char> {
    match response {
        Response::Error { message } => message@,
        _ => "Unexpected response"@,
    }
}

/// The error text of an answer of the wrong kind.
pub fn answer_error(response: Response) -> (r: String)
    ensures
        r@ == answer_error_text(response),
{
    match response {
        Response::Error { message } => message,
        _ => String::from_str("Unexpected response"),
    }
}

/// The status carried by a status answer.
pub fn status_answer(response: Response) -> (r: Result<TranscribeStatus, String>)
    ensures
        match response {
            Response::Status(st) => r == Ok::<TranscribeStatus, String>(st),
            _ => r matches Err(e) && e@ == answer_error_text(response),
        },
{
    match response {
        Response::Status(st) => Ok(st),
        other => Err(answer_error(other)),
    }
}

/// The push-to-talk status carried by its answer.
pub fn ptt_status_answer(response: Response) -> (r: Result<PttStatus, String>)
    ensures
        match response {
            Response::PttStatus(st) => r == Ok::<PttStatus, String>(st),
            _ => r matches Err(e) && e@ == answer_error_text(response),
        },
{
    match response {
        Response::PttStatus(st) => Ok(st),
        other => Err(answer_error(other)),
    }
}

/// The GPU status carried by its answer.
pub fn cuda_status_answer(response: Response) -> (r: Result<CudaStatus, String>)
    ensures
        match response {
            Response::CudaStatus(st) => r == Ok::<CudaStatus, String>(st),
            _ => r matches Err(e) && e@ == answer_error_text(response),
        },
{
    match response {
        Response::CudaStatus(st) => Ok(st),
        other => Err(answer_error(other)),
    }
}

/// The model status carried by its answer.
pub fn model_status_answer(response: Response) -> (r: Result<ModelStatus, String>)
    ensures
        match response {
            Response::ModelStatus(st) => r == Ok::<ModelStatus, String>(st),
            _ => r matches Err(e) && e@ == answer_error_text(response),
        },
{
    match response {
        Response::ModelStatus(st) => Ok(st),
        other => Err(answer_error(other)),
    }
}

/// The devices carried by a device-listing answer.
pub fn devices_answer(response: Response) -> (r: Result<Vec<AudioDevice>, String>)
    ensures
        match response {
            Response::Devices { devices } => r == Ok::<Vec<AudioDevice>, String>(devices),
            _ => r matches Err(e) && e@ == answer_error_text(response),
        },
{
    match response {
        Response::Devices { devices } => Ok(devices),
        other => Err(answer_error(other)),
    }
}

} // verus!
