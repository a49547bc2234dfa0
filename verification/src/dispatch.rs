use vstd::prelude::*;
use crate::error::Error;
use crate::response::Response;
use crate::rpcs::{Expansion, ImplInfo, arm_method_names, expands_to, law_arms_answer_methods, views};

verus! {

/// Whether two texts hold the same characters.
fn same_text(a: &str, b: &str) -> (r: bool)
    ensures
        r == (a@ == b@),
{
    a.to_owned() == b.to_owned()
}

/// The texts of a sequence of method names.
pub open spec fn name_views(names: Seq<&str>) -> Seq<Seq<char>> {
    names.map_values(|s: &str| s@)
}

/// How a call of `method` is routed among arms that answer `names`, in
/// order: where the module has no RPC method the call is answered with
/// nothing (`Ok(None)`); else it goes to the first arm that answers the
/// method (`Ok(Some(i))`); where none does, it is refused as unsupported.
pub open spec fn routes(
    is_empty_impl: bool,
    names: Seq<Seq<char>>,
    method: Seq<char>,
    r: Result<Option<usize>, Error>,
) -> bool {
    if is_empty_impl {
        r == Ok::<Option<usize>, Error>(None)
    } else {
        match r {
            Ok(Some(i)) => i < names.len() && names[i as int] == method && forall|j: int|
                0 <= j < i ==> names[j] != method,
            Ok(None) => false,
            Err(e) => e == Error::TempOnlySupportRPC && !names.contains(method),
        }
    }
}

/// Routes a call of `method` among the dispatcher's arms, named by
/// `arm_methods` in order.
pub fn route(is_empty_impl: bool, arm_methods: &[&str], method: &str) -> (r: Result<
    Option<usize>,
    Error,
>)
    ensures
        routes(is_empty_impl, name_views(arm_methods@), method@, r),
{
    if is_empty_impl {
        return Ok(None);
    }
    let ghost names = name_views(arm_methods@);
    let mut i: usize = 0;
    while i < arm_methods.len()
        invariant
            i <= arm_methods@.len(),
            !is_empty_impl,
            names == name_views(arm_methods@),
            forall|j: int| 0 <= j < i ==> names[j] != method@,
        decreases arm_methods@.len() - i,
    {
        if same_text(arm_methods[i], method) {
            return Ok(Some(i));
        }
        i = i + 1;
    }
    assert(!names.contains(method@));
    Err(Error::TempOnlySupportRPC)
}

/// A call that the dispatcher routes to an arm names a method of the
/// annotated impl block: routed among the arms of the expansion, the arm
/// that a call reaches answers the called method, which is a method of the
/// impl block.
pub proof fn law_routed_calls_reach_methods(
    item: ImplInfo,
    e: Expansion,
    method: Seq<char>,
    r: Result<Option<usize>, Error>,
)
    requires
        expands_to(item, e),
        routes(e.is_empty_impl, arm_method_names(e.arms@), method, r),
    ensures
        r matches Ok(Some(i)) ==> e.arms@[i as int].method@ == method && views(
            e.fn_names@,
        ).contains(method),
{
    law_arms_answer_methods(item, e);
    if let Ok(Some(i)) = r {
        if !e.is_empty_impl {
            let k = i as int;
            assert(arm_method_names(e.arms@)[k] == e.arms@[k].method@);
            let j = choose|j: int| 0 <= j < e.fn_names@.len() && e.fn_names@[j]@ == e.arms@[k].method@;
            assert(views(e.fn_names@)[j] == method);
        }
    }
}

/// A call that names no method of an impl block that has methods is refused
/// as unsupported: no handler is reached.
pub proof fn law_unknown_method_is_refused(
    item: ImplInfo,
    e: Expansion,
    method: Seq<char>,
    r: Result<Option<usize>, Error>,
)
    requires
        expands_to(item, e),
        !e.is_empty_impl,
        !views(e.fn_names@).contains(method),
        routes(e.is_empty_impl, arm_method_names(e.arms@), method, r),
    ensures
        r == Err::<Option<usize>, Error>(Error::TempOnlySupportRPC),
{
    law_routed_calls_reach_methods(item, e, method, r);
}

/// What the dispatcher learns while it answers a routed call: the decoded
/// parameter (or the decoding error), the handler's response, or the
/// encoded data (or the encoding error).
pub enum CallEvent<P, V, W> {
    Decoded(Result<P, Error>),
    Answered(Response<V>),
    Encoded(Result<W, Error>),
}

/// What the dispatcher does next: call the handler with the parameter,
/// encode the handler's data, or finish with the call's answer.
pub enum CallAction<P, V, W> {
    CallHandler(P),
    Encode(V),
    Finish(Result<Option<W>, Error>),
}

/// The dispatcher's next action after an event: a decoding error is the
/// answer; a decoded parameter goes to the handler; the handler's response
/// is answered as `call_result` says, data going to the encoder; the
/// encoded data, or the encoding error, is the answer.
pub open spec fn next_action<P, V, W>(event: CallEvent<P, V, W>) -> CallAction<P, V, W> {
    match event {
        CallEvent::Decoded(Err(e)) => CallAction::Finish(Err(e)),
        CallEvent::Decoded(Ok(p)) => CallAction::CallHandler(p),
        CallEvent::Answered(r) => match r.call_result() {
            Err(e) => CallAction::Finish(Err(e)),
            Ok(Some(v)) => CallAction::Encode(v),
            Ok(None) => CallAction::Finish(Ok(None)),
        },
        CallEvent::Encoded(Ok(w)) => CallAction::Finish(Ok(Some(w))),
        CallEvent::Encoded(Err(e)) => CallAction::Finish(Err(e)),
    }
}

/// Decides the dispatcher's next action after an event.
pub fn call_step<P, V, W>(event: CallEvent<P, V, W>) -> (a: CallAction<P, V, W>)
    ensures
        a == next_action(event),
{
    match event {
        CallEvent::Decoded(Err(e)) => CallAction::Finish(Err(e)),
        CallEvent::Decoded(Ok(p)) => CallAction::CallHandler(p),
        CallEvent::Answered(r) => match r.into_call_result() {
            Err(e) => CallAction::Finish(Err(e)),
            Ok(Some(v)) => CallAction::Encode(v),
            Ok(None) => CallAction::Finish(Ok(None)),
        },
        CallEvent::Encoded(Ok(w)) => CallAction::Finish(Ok(Some(w))),
        CallEvent::Encoded(Err(e)) => CallAction::Finish(Err(e)),
    }
}

/// The answer of a routed call: where decoding fails, its error, and the
/// handler is not called; else the handler is called once with the
/// parameter, and its response is answered as an RPC application error of
/// its code and message where the code is not zero (its data ignored),
/// with nothing where it has no data, and else with its encoded data or the
/// encoding error. The call ends by the third step.
pub proof fn law_call_answer<P, V, W>(
    decoded: Result<P, Error>,
    response: Response<V>,
    encoded: Result<W, Error>,
)
    ensures
        decoded matches Err(e) ==> next_action(CallEvent::<P, V, W>::Decoded(decoded))
            == CallAction::<P, V, W>::Finish(Err(e)),
        decoded matches Ok(p) ==> next_action(CallEvent::<P, V, W>::Decoded(decoded))
            == CallAction::<P, V, W>::CallHandler(p),
        response.code != 0 ==> next_action(CallEvent::<P, V, W>::Answered(response))
            == CallAction::<P, V, W>::Finish(
            Err(Error::RPCApplicationError(response.code, response.message)),
        ),
        response.code == 0 && response.data is None ==> next_action(
            CallEvent::<P, V, W>::Answered(response),
        ) == CallAction::<P, V, W>::Finish(Ok(None)),
        response.code == 0 ==> (response.data matches Some(v) ==> next_action(
            CallEvent::<P, V, W>::Answered(response),
        ) == CallAction::<P, V, W>::Encode(v)),
        encoded matches Ok(w) ==> next_action(CallEvent::<P, V, W>::Encoded(encoded))
            == CallAction::<P, V, W>::Finish(Ok(Some(w))),
        encoded matches Err(e) ==> next_action(CallEvent::<P, V, W>::Encoded(encoded))
            == CallAction::<P, V, W>::Finish(Err(e)),
        !(next_action(CallEvent::<P, V, W>::Answered(response)) is CallHandler),
        next_action(CallEvent::<P, V, W>::Encoded(encoded)) is Finish,
{
}

/// Every method that has an arm is routed to a handler: a call of it, in a
/// module with RPC methods, goes to an arm that answers it, no later than
/// any such arm.
pub proof fn law_every_arm_method_is_routed(
    e: Expansion,
    method: Seq<char>,
    k: int,
    r: Result<Option<usize>, Error>,
)
    requires
        !e.is_empty_impl,
        0 <= k < e.arms@.len(),
        e.arms@[k].method@ == method,
        routes(e.is_empty_impl, arm_method_names(e.arms@), method, r),
    ensures
        r matches Ok(Some(i)) && i <= k && e.arms@[i as int].method@ == method,
{
    let names = arm_method_names(e.arms@);
    assert(names[k] == method);
    assert(names.contains(method));
    if let Ok(Some(i)) = r {
        assert(names[i as int] == e.arms@[i as int].method@);
    }
}

} // verus!
