//! The envelope every response is sent in.

use vstd::prelude::*;
use crate::errors::ErrorBody;

verus! {

/// A response: its data and an error part, empty on success.
pub struct BaseResponse<T> {
    pub data: T,
    pub err: ErrorBody,
}

impl<T> BaseResponse<T> {
    /// A successful response carrying `data`.
    pub fn init(data: T) -> (res: BaseResponse<T>)
        ensures
            res.data == data,
            res.err.code == 0,
            res.err.message@ == Seq::<char>::empty(),
    {
        BaseResponse { data, err: ErrorBody::none() }
    }
}

} // verus!
