//! Request handling of the service.
use crate::boot_orchestrator::api::Error;
use vstd::prelude::*;

verus! {

/// Decodes one wire request, acts on it, and encodes the response. Returns
/// the number of bytes written to `response`.
///
/// No request kind is defined, so every request is rejected with
/// [`Error::InvalidOperation`]: the response is that error's byte, as far as
/// there is room for it, and the rest of `response` is left as it was.
pub fn dispatch(_request: &[u8], response: &mut [u8]) -> (written: usize)
    ensures
        old(response)@.len() >= 1 ==> {
            &&& written == 1
            &&& final(response)@ == old(response)@.update(0, Error::InvalidOperation.wire())
        },
        old(response)@.len() == 0 ==> written == 0 && final(response)@ == old(response)@,
{
    if response.len() == 0 {
        return 0;
    }
    response[0] = Error::InvalidOperation.code();
    1
}

/// Every request is rejected, whatever it holds: the response starts with the
/// byte of an invalid operation if there is room for it, one byte is written
/// then and none otherwise, and the rest of the response is left as it was.
pub proof fn law_every_request_is_rejected(request: &[u8], response: &mut [u8], written: usize)
    requires
        call_ensures(dispatch, (request, response), written),
    ensures
        final(response)@.len() == old(response)@.len(),
        written == (if old(response)@.len() == 0 {
            0int
        } else {
            1int
        }),
        written == 1 ==> final(response)@[0] == 0x01,
        forall|i: int|
            written <= i < old(response)@.len() ==> #[trigger] final(response)@[i] == old(
                response,
            )@[i],
{
}

} // verus!
