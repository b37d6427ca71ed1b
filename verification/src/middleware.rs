use vstd::prelude::*;

verus! {

/// The request identifier that the trace of a request carries: the value of
/// its `x-request-id` header when it has a readable one, else "missing".
pub fn request_id_label(header: Option<&str>) -> (r: String)
    ensures
        r@ == match header {
            Some(h) => h@,
            None => "missing"@,
        },
{
    match header {
        Some(h) => String::from_str(h),
        None => String::from_str("missing"),
    }
}

} // verus!
