//! The dispatch of builtins: the one trampoline through which the host
//! invokes every builtin of a module, and the boundary that all entry points
//! pass their work through.

use vstd::prelude::*;
use vstd::slice::slice_to_vec;
use vstd::utf8::*;
use crate::containment::{
    handle_panic, Diagnostic, Payload, Reply, ReplyView, FAILURE, FAULT, SUCCESS,
};
use crate::fatal::Fatal;
use crate::holder::{get_mod, step, HolderState, ModuleHolder};
use crate::marshal::{marshalled, name_from_ptr, strings_from_ptr, texts};
use crate::module::{names_at, Module};

verus! {

/// `handler` may be called with whatever the host sends.
pub open spec fn total<U, O, H: Fn(&mut U, &str, &[&str], O) -> Result<(), String>>(
    handler: H,
) -> bool {
    forall|data: &mut U, name: &str, args: &[&str], opts: O|
        call_requires(handler, (data, name, args, opts))
}

/// Every handler of `module` may be called with whatever the host sends.
pub open spec fn handlers_total<U, O, H: Fn(&mut U, &str, &[&str], O) -> Result<(), String>>(
    module: Module<U, H>,
) -> bool {
    forall|i: int| 0 <= i < module.bintable@.len() ==> total::<U, O, H>(
        (#[trigger] module.bintable@[i]).handler,
    )
}

/// Where an invocation of the builtin `name` with `args` leads: to the entry
/// of the dispatch table that holds its handler, or to the first broken
/// invariant.
pub open spec fn route<U, H>(
    state: HolderState<U, H>,
    name: Seq<u8>,
    args: Seq<Option<&[u8]>>,
) -> Result<int, Fatal> {
    if marshalled(args) is None {
        Err(Fatal::ParseArg)
    } else if !valid_utf8(name) {
        Err(Fatal::ParseName)
    } else if state.module is None {
        Err(Fatal::NoModule)
    } else {
        match state.module.unwrap().position(decode_utf8(name)) {
            Some(i) => Ok(i),
            None => Err(Fatal::NoBuiltin),
        }
    }
}

/// The handler in entry `i` of the dispatch table of the installed instance.
pub open spec fn handler_at<U, H>(state: HolderState<U, H>, i: int) -> H {
    state.module.unwrap().bintable@[i].handler
}

/// The state in which a handler that left the user data as `user_data`
/// leaves a holder: the instance stays installed, and nothing else of it
/// changes.
pub open spec fn served<U, H>(state: HolderState<U, H>, user_data: U) -> HolderState<U, H> {
    match state.module {
        Some(m) => state.set(
            Module { bintable: m.bintable, user_data, features: m.features },
        ),
        None => state,
    }
}

/// The reply to an invocation of the builtin `label` whose handler returned
/// `result`.
pub open spec fn concluded(label: Seq<u8>, result: Result<(), String>) -> ReplyView {
    match result {
        Ok(_) => ReplyView::silent(SUCCESS as int),
        Err(e) => ReplyView::reporting(FAILURE as int, label, e@),
    }
}

/// Turns what a handler returned into the reply to the host: success, or
/// the ordinary failure code with the handler's error reported under `name`.
pub fn conclude(name: &[u8], result: Result<(), String>) -> (reply: Reply)
    ensures
        reply@ == concluded(name@, result),
{
    match result {
        Ok(_) => Reply { code: SUCCESS, diagnostic: None },
        Err(e) => Reply {
            code: FAILURE,
            diagnostic: Some(Diagnostic { label: slice_to_vec(name), message: e }),
        },
    }
}

/// The work of one invocation of a builtin: marshals the arguments and the
/// name, acquires the instance, finds the handler and runs it.
fn dispatch<U, O, H: Fn(&mut U, &str, &[&str], O) -> Result<(), String>>(
    holder: &mut ModuleHolder<U, H>,
    name: &[u8],
    args: &[Option<&[u8]>],
    opts: O,
) -> (work: Result<Reply, Fatal>)
    requires
        old(holder)@.module matches Some(m) ==> handlers_total::<U, O, H>(m),
    ensures
        route(old(holder)@, name@, args@) matches Err(fatal) ==> {
            &&& work == Err::<Reply, Fatal>(fatal)
            &&& final(holder)@ == old(holder)@
        },
        route(old(holder)@, name@, args@) matches Ok(i) ==> work is Ok && exists|
            data: &mut U,
            n: &str,
            a: &[&str],
            result: Result<(), String>,
        |
            #![trigger call_ensures(handler_at(old(holder)@, i), (data, n, a, opts), result)]
            {
                &&& *data == old(holder)@.module.unwrap().user_data
                &&& n@ == decode_utf8(name@)
                &&& texts(a@) == marshalled(args@).unwrap()
                &&& call_ensures(handler_at(old(holder)@, i), (data, n, a, opts), result)
                &&& final(holder)@ == served(old(holder)@, *final(data))
                &&& work.unwrap()@ == concluded(name@, result)
            },
{
    let argv = match strings_from_ptr(args) {
        Ok(argv) => argv,
        Err(fatal) => {
            return Err(fatal);
        },
    };
    let text = match name_from_ptr(name) {
        Ok(text) => text,
        Err(fatal) => {
            return Err(fatal);
        },
    };
    let module = match get_mod(holder) {
        Ok(module) => module,
        Err(fatal) => {
            return Err(fatal);
        },
    };
    let i = match module.find(text) {
        Some(i) => i,
        None => {
            return Err(Fatal::NoBuiltin);
        },
    };
    let slice = argv.as_slice();
    let data = &mut module.user_data;
    let result = (module.bintable[i].handler)(data, text, slice, opts);
    let reply = conclude(name, result);
    proof {
        let index = route(old(holder)@, name@, args@)->Ok_0;
        assert(index == i);
        let handler = handler_at(old(holder)@, i as int);
        assert(exists|d: &mut U|
            #![trigger call_ensures(handler, (d, text, slice, opts), result)]
            {
                &&& *d == old(holder)@.module.unwrap().user_data
                &&& call_ensures(handler, (d, text, slice, opts), result)
                &&& final(holder)@ == served(old(holder)@, *final(d))
            });
        assert(exists|d: &mut U, n: &str, a: &[&str], r: Result<(), String>|
            #![trigger call_ensures(handler_at(old(holder)@, index), (d, n, a, opts), r)]
            {
                &&& *d == old(holder)@.module.unwrap().user_data
                &&& n@ == decode_utf8(name@)
                &&& texts(a@) == marshalled(args@).unwrap()
                &&& call_ensures(handler_at(old(holder)@, index), (d, n, a, opts), r)
                &&& final(holder)@ == served(old(holder)@, *final(d))
                &&& reply@ == concluded(name@, r)
            });
    }
    Ok(reply)
}

/// Passes the work of an entry point through the boundary. Work that came
/// to its end keeps its reply. Work that a fatal violation ended poisons the
/// holder and is answered with the fault code and a report of the
/// violation under `name`.
pub(crate) fn contain<U, H>(
    holder: &mut ModuleHolder<U, H>,
    name: &[u8],
    work: Result<Reply, Fatal>,
) -> (reply: Reply)
    ensures
        match work {
            Ok(done) => reply == done && final(holder)@ == old(holder)@,
            Err(fatal) => {
                &&& reply@ == ReplyView::fault(name@, fatal.text())
                &&& final(holder)@ == old(holder)@.poison()
            },
        },
{
    let outcome = match work {
        Ok(done) => Ok(done),
        Err(fatal) => Err(Payload::Text(String::from_str(fatal.message()))),
    };
    let (ret, diagnostic) = handle_panic(holder, name, outcome);
    match ret {
        Some(done) => done,
        None => Reply { code: FAULT, diagnostic },
    }
}

/// The trampoline that the host calls for every builtin: runs the handler
/// that is registered under `name` on the arguments `args` and the options
/// `opts`, and answers with its outcome. The arguments are marshalled
/// first, then the name; then the instance is acquired and the handler
/// looked up. The first of these that fails is fatal.
pub fn builtin_callback<U, O, H: Fn(&mut U, &str, &[&str], O) -> Result<(), String>>(
    holder: &mut ModuleHolder<U, H>,
    name: &[u8],
    args: &[Option<&[u8]>],
    opts: O,
) -> (reply: Reply)
    requires
        old(holder)@.module matches Some(m) ==> handlers_total::<U, O, H>(m),
    ensures
        route(old(holder)@, name@, args@) matches Err(fatal) ==> {
            &&& reply@ == ReplyView::fault(name@, fatal.text())
            &&& final(holder)@ == old(holder)@.poison()
        },
        route(old(holder)@, name@, args@) matches Ok(i) ==> exists|
            data: &mut U,
            n: &str,
            a: &[&str],
            result: Result<(), String>,
        |
            #![trigger call_ensures(handler_at(old(holder)@, i), (data, n, a, opts), result)]
            {
                &&& *data == old(holder)@.module.unwrap().user_data
                &&& n@ == decode_utf8(name@)
                &&& texts(a@) == marshalled(args@).unwrap()
                &&& call_ensures(handler_at(old(holder)@, i), (data, n, a, opts), result)
                &&& final(holder)@ == served(old(holder)@, *final(data))
                &&& reply@ == concluded(name@, result)
            },
{
    let work = dispatch(holder, name, args, opts);
    contain(holder, name, work)
}

/// With an instance installed, a name that is valid UTF-8 and arguments that
/// marshal, an invocation leads to the handler that is registered under the
/// name, and is fatal where none is.
pub proof fn lemma_route_installed<U, H>(
    state: HolderState<U, H>,
    name: Seq<u8>,
    args: Seq<Option<&[u8]>>,
)
    requires
        state.module is Some,
        valid_utf8(name),
        marshalled(args) is Some,
    ensures
        match state.module.unwrap().position(decode_utf8(name)) {
            Some(i) => {
                &&& route(state, name, args) == Ok::<int, Fatal>(i)
                &&& 0 <= i < state.module.unwrap().bintable@.len()
                &&& state.module.unwrap().bintable@[i].name@ == decode_utf8(name)
            },
            None => route(state, name, args) == Err::<int, Fatal>(Fatal::NoBuiltin),
        },
{
    let table = state.module.unwrap().bintable@;
    let text = decode_utf8(name);
    if exists|i: int| names_at(table, i, text) {
        let i = choose|i: int| names_at(table, i, text);
        assert(names_at(table, i, text));
    }
}

/// Whatever a handler returned and however it left the user data, the
/// instance stays installed with the dispatch table that it had, poison is
/// as it was, and every later invocation leads where it led before.
pub proof fn lemma_served_keeps_routes<U, H>(
    state: HolderState<U, H>,
    user_data: U,
    name: Seq<u8>,
    args: Seq<Option<&[u8]>>,
)
    requires
        state.module is Some,
    ensures
        served(state, user_data).module is Some,
        served(state, user_data).module.unwrap().bintable == state.module.unwrap().bintable,
        served(state, user_data).module.unwrap().features == state.module.unwrap().features,
        served(state, user_data).poisoned == state.poisoned,
        route(served(state, user_data), name, args) == route(state, name, args),
        step(state, served(state, user_data)),
{
    let m = state.module.unwrap();
    assert(served(state, user_data) == state.set(
        Module { bintable: m.bintable, user_data, features: m.features },
    ));
}

} // verus!
