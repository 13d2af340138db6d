//! The steps of a module's life, in the order in which the host takes them:
//! setup, boot, features, enables, cleanup, finish.
//!
//! The order is the host's to keep. Nothing here checks it, beyond this: a
//! step that needs the instance is fatal while none is installed.

use vstd::prelude::*;
use vstd::slice::slice_to_vec;
use vstd::utf8::*;
use crate::containment::{Diagnostic, Reply, ReplyView, FAILURE, SUCCESS};
use crate::export_module::{contain, handler_at, route};
use crate::fatal::Fatal;
use crate::holder::{drop_mod, get_mod, set_mod, step, HolderState, ModuleHolder};
use crate::marshal::marshalled;
use crate::module::{Features, Module};

verus! {

/// A holder in `state` is in state `after` once the plugin's constructor has
/// returned `built`: its instance is installed with every builtin led to the
/// trampoline, or, where it returned an error, nothing has changed.
pub open spec fn installs<U, H>(
    state: HolderState<U, H>,
    built: Result<Module<U, H>, String>,
    after: HolderState<U, H>,
) -> bool {
    match built {
        Ok(module) => {
            &&& after.poisoned == state.poisoned
            &&& after.module matches Some(installed)
            &&& installed.bintable == module.bintable
            &&& installed.user_data == module.user_data
            &&& installed.features.routes(module.features)
        },
        Err(_) => after == state,
    }
}

/// The reply of setup once the plugin's constructor has returned `built`.
pub open spec fn setup_reply<U, H>(
    label: Seq<u8>,
    built: Result<Module<U, H>, String>,
) -> ReplyView {
    match built {
        Ok(_) => ReplyView::silent(SUCCESS as int),
        Err(e) => ReplyView::reporting(FAILURE as int, label, "Failed to setup module: "@ + e@),
    }
}

/// Takes what the plugin's constructor returned. An instance has each of its
/// builtins led to the trampoline and is then installed. An error is
/// reported under `name` as an ordinary failure, and nothing is installed.
pub fn install<U, H>(
    holder: &mut ModuleHolder<U, H>,
    name: &[u8],
    built: Result<Module<U, H>, String>,
) -> (reply: Reply)
    ensures
        installs(old(holder)@, built, final(holder)@),
        reply@ == setup_reply(name@, built),
{
    match built {
        Ok(module) => {
            let mut module = module;
            module.features.route_binaries();
            set_mod(holder, module);
            Reply { code: SUCCESS, diagnostic: None }
        },
        Err(e) => {
            let mut message = String::from_str("Failed to setup module: ");
            message.append(e.as_str());
            Reply {
                code: FAILURE,
                diagnostic: Some(Diagnostic { label: slice_to_vec(name), message }),
            }
        },
    }
}

/// Setup: runs the plugin's constructor and installs what it built.
pub fn setup_<U, H, C: FnOnce() -> Result<Module<U, H>, String>>(
    holder: &mut ModuleHolder<U, H>,
    name: &[u8],
    construct: C,
) -> (reply: Reply)
    requires
        call_requires(construct, ()),
    ensures
        exists|built: Result<Module<U, H>, String>|
            {
                &&& #[trigger] call_ensures(construct, (), built)
                &&& installs(old(holder)@, built, final(holder)@)
                &&& reply@ == setup_reply(name@, built)
            },
{
    let built = construct();
    let reply = install(holder, name, built);
    contain(holder, name, Ok(reply))
}

/// Boot: nothing to do yet, and nothing that can fail.
pub fn boot_<U, H>(holder: &mut ModuleHolder<U, H>, name: &[u8]) -> (reply: Reply)
    ensures
        reply@ == ReplyView::silent(SUCCESS as int),
        final(holder)@ == old(holder)@,
{
    contain(holder, name, Ok(Reply { code: SUCCESS, diagnostic: None }))
}

/// Features: has `encode` lay the features of the installed instance out for
/// the host, and stores the result in `out`.
pub fn features_<U, H, A, F: FnOnce(&Features) -> A>(
    holder: &mut ModuleHolder<U, H>,
    name: &[u8],
    out: &mut A,
    encode: F,
) -> (reply: Reply)
    requires
        old(holder)@.module matches Some(m) ==> call_requires(encode, (&m.features,)),
    ensures
        match old(holder)@.acquire() {
            Ok(m) => {
                &&& call_ensures(encode, (&m.features,), *final(out))
                &&& reply@ == ReplyView::silent(SUCCESS as int)
                &&& final(holder)@ == old(holder)@
            },
            Err(fatal) => {
                &&& *final(out) == *old(out)
                &&& reply@ == ReplyView::fault(name@, fatal.text())
                &&& final(holder)@ == old(holder)@.poison()
            },
        },
{
    let work = match get_mod(holder) {
        Ok(module) => {
            *out = encode(&module.features);
            Ok(Reply { code: SUCCESS, diagnostic: None })
        },
        Err(fatal) => Err(fatal),
    };
    contain(holder, name, work)
}

/// Enables: has `apply` switch the features of the installed instance as
/// `enables` says, and answers with the code that it returns.
pub fn enables_<U, H, E, F: FnOnce(&Features, Option<E>) -> i32>(
    holder: &mut ModuleHolder<U, H>,
    name: &[u8],
    enables: Option<E>,
    apply: F,
) -> (reply: Reply)
    requires
        old(holder)@.module matches Some(m) ==> call_requires(apply, (&m.features, enables)),
    ensures
        match old(holder)@.acquire() {
            Ok(m) => {
                &&& call_ensures(apply, (&m.features, enables), reply.code)
                &&& reply.diagnostic is None
                &&& final(holder)@ == old(holder)@
            },
            Err(fatal) => {
                &&& reply@ == ReplyView::fault(name@, fatal.text())
                &&& final(holder)@ == old(holder)@.poison()
            },
        },
{
    let work = match get_mod(holder) {
        Ok(module) => Ok(Reply { code: apply(&module.features, enables), diagnostic: None }),
        Err(fatal) => Err(fatal),
    };
    contain(holder, name, work)
}

/// Cleanup: has `apply` switch every feature of the installed instance off,
/// which is what it does when it is given no enables. The instance stays
/// installed.
pub fn cleanup_<U, H, E, F: FnOnce(&Features, Option<E>) -> i32>(
    holder: &mut ModuleHolder<U, H>,
    name: &[u8],
    apply: F,
) -> (reply: Reply)
    requires
        old(holder)@.module matches Some(m) ==> call_requires(apply, (&m.features, None::<E>)),
    ensures
        match old(holder)@.acquire() {
            Ok(m) => {
                &&& call_ensures(apply, (&m.features, None::<E>), reply.code)
                &&& reply.diagnostic is None
                &&& final(holder)@ == old(holder)@
            },
            Err(fatal) => {
                &&& reply@ == ReplyView::fault(name@, fatal.text())
                &&& final(holder)@ == old(holder)@.poison()
            },
        },
{
    enables_(holder, name, None, apply)
}

/// Finish: lets go of the instance, unless the holder is poisoned.
pub fn finish_<U, H>(holder: &mut ModuleHolder<U, H>, name: &[u8]) -> (reply: Reply)
    ensures
        reply@ == ReplyView::silent(SUCCESS as int),
        final(holder)@ == old(holder)@.cleared(),
{
    drop_mod(holder);
    contain(holder, name, Ok(Reply { code: SUCCESS, diagnostic: None }))
}

/// Once setup has installed `module`, an invocation of a builtin leads to the
/// handler that `module` holds under its name, and is fatal where it holds
/// none. The name is taken to be valid UTF-8 and the arguments to marshal.
pub proof fn lemma_dispatch_after_setup<U, H>(
    state: HolderState<U, H>,
    module: Module<U, H>,
    after: HolderState<U, H>,
    name: Seq<u8>,
    args: Seq<Option<&[u8]>>,
)
    requires
        installs(state, Ok(module), after),
        valid_utf8(name),
        marshalled(args) is Some,
    ensures
        match module.position(decode_utf8(name)) {
            Some(i) => route(after, name, args) == Ok::<int, Fatal>(i) && handler_at(after, i)
                == module.bintable@[i].handler,
            None => route(after, name, args) == Err::<int, Fatal>(Fatal::NoBuiltin),
        },
        after.module.unwrap().features.routed(),
{
}

/// Setup changes the state of a holder by one step.
pub proof fn lemma_setup_is_a_step<U, H>(
    state: HolderState<U, H>,
    built: Result<Module<U, H>, String>,
    after: HolderState<U, H>,
)
    requires
        installs(state, built, after),
    ensures
        step(state, after),
{
    if built is Ok {
        assert(after == state.set(after.module.unwrap()));
    }
}

/// A setup whose constructor failed installs nothing: acquiring the instance
/// of a holder that was empty before is still fatal.
pub proof fn lemma_failed_setup_installs_nothing<U, H>(
    error: String,
    after: HolderState<U, H>,
)
    requires
        installs(HolderState::<U, H>::empty(), Err(error), after),
    ensures
        after.acquire() == Err::<Module<U, H>, Fatal>(Fatal::NoModule),
{
}

} // verus!
