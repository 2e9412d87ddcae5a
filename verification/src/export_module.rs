//! The module holder: the lifecycle state machine and dispatch bridge.
//!
//! The host drives a loaded library through setup, boot, feature
//! bookkeeping, command calls, cleanup and finish, and it addresses the
//! library through bare function pointers, so exactly one module instance
//! lives for the life of the shared library. The holder owns that
//! instance, tracks where in the lifecycle it stands, and remembers
//! whether a panic has already corrupted it. The boundary code keeps the
//! holder behind a process-wide lock and calls in here once the lock is
//! held; panics in handlers are caught out there and reported back through
//! [`ModuleHolder::note_panic`], since no verified function here panics.
//!
//! Return codes: `0` success, `1` ordinary command failure, a distinct
//! code for a command name the registry does not know (defensive; the
//! host only invokes names it was told), and a distinct severe-failure
//! code for a panic or a protocol violation, so the host can tell a
//! polite failure from possible corruption.

use vstd::prelude::*;

use crate::bytes::has_nul;
use crate::error::ZError;
use crate::features::{free_list, BinDesc};
use crate::options::Opts;
use crate::string_array::CStrArray;
use crate::{same_desc, Cmd, MaybeZError, Module};

verus! {

/// Return code for a call that succeeded.
pub const CODE_OK: i32 = 0;

/// Return code for an ordinary, recoverable command failure.
pub const CODE_ERROR: i32 = 1;

/// Return code for a dispatch on a name the registry does not know.
pub const CODE_UNKNOWN_COMMAND: i32 = 3;

/// Return code for a panic or a violation of the host protocol: the
/// library's state may be corrupt.
pub const CODE_SEVERE: i32 = 65;

/// Where in the host's lifecycle the held module stands.
#[derive(Clone, Copy, Debug, PartialEq, Eq, Structural)]
pub enum Lifecycle {
    /// No module is held: before setup, or after a clean finish.
    Empty,
    /// Setup produced a module; the host has not booted it yet.
    Configured,
    /// The module is booted and dispatch is enabled.
    Live,
    /// A panic occurred; the module is retained but never freed.
    Poisoned,
}

/// What a dispatch request resolved to.
pub enum DispatchOutcome {
    /// Dispatch was invoked with no live module: a protocol violation,
    /// treated like a panic.
    NoModule,
    /// The command name is not registered. Defensive: the host only
    /// invokes names it was told about.
    UnknownCommand,
    /// The named handler ran and returned this result.
    Done(MaybeZError),
}

/// The integer code the host receives for `outcome`.
pub fn dispatch_code(outcome: &DispatchOutcome) -> (r: i32)
    ensures
        r == spec_dispatch_code(*outcome),
{
    match outcome {
        DispatchOutcome::NoModule => CODE_SEVERE,
        DispatchOutcome::UnknownCommand => CODE_UNKNOWN_COMMAND,
        DispatchOutcome::Done(res) => match res {
            Ok(()) => CODE_OK,
            Err(_) => CODE_ERROR,
        },
    }
}

/// The code translation, outcome by outcome.
pub open spec fn spec_dispatch_code(outcome: DispatchOutcome) -> i32 {
    match outcome {
        DispatchOutcome::NoModule => CODE_SEVERE,
        DispatchOutcome::UnknownCommand => CODE_UNKNOWN_COMMAND,
        DispatchOutcome::Done(res) => match res {
            Ok(_) => CODE_OK,
            Err(_) => CODE_ERROR,
        },
    }
}

/// Translates the outcome of a fallible lifecycle step into the code the
/// host receives: success is 0, an ordinary failure is 1. The boundary
/// code logs the error's message before the code is returned.
pub fn handle_maybe_error(error: MaybeZError) -> (r: i32)
    ensures
        error is Ok ==> r == CODE_OK,
        error is Err ==> r == CODE_ERROR,
{
    match error {
        Ok(()) => CODE_OK,
        Err(_) => CODE_ERROR,
    }
}

/// Owns the single live module and its lifecycle state.
pub struct ModuleHolder<A, C> {
    /// The held module, present from a successful setup until finish.
    pub module: Option<Module<A, C>>,
    /// Set permanently when a panic is observed; forbids freeing the
    /// module, whose invariants can no longer be trusted.
    pub panicked: bool,
    /// The module's loadable name, for diagnostics.
    pub name: Option<String>,
    /// The lifecycle state the holder is in.
    pub lifecycle: Lifecycle,
}

impl<A, C: Cmd<A>> ModuleHolder<A, C> {
    /// The state, the panic flag and the module's presence agree, and any
    /// held module outside the poisoned state is intact with the dispatch
    /// function installed.
    pub open spec fn wf(&self) -> bool {
        match self.lifecycle {
            Lifecycle::Empty => self.module is None && !self.panicked,
            Lifecycle::Configured | Lifecycle::Live => {
                &&& self.module matches Some(m)
                &&& !self.panicked
                &&& self.module->Some_0.wf()
                &&& self.module->Some_0.handlers_installed()
            },
            Lifecycle::Poisoned => self.panicked,
        }
    }

    /// The names registered in the held module; empty when none is held.
    pub open spec fn held_names(&self) -> Seq<Seq<u8>> {
        match self.module {
            Some(m) => m.names(),
            None => Seq::empty(),
        }
    }

    /// A holder with no module, no recorded panic and no name.
    pub fn empty() -> (r: ModuleHolder<A, C>)
        ensures
            r.module is None,
            !r.panicked,
            r.name is None,
            r.lifecycle is Empty,
            r.wf(),
    {
        ModuleHolder { module: None, panicked: false, name: None, lifecycle: Lifecycle::Empty }
    }

    /// Records the module's loadable name for diagnostics.
    pub fn set_name(&mut self, name: String)
        ensures
            final(self).name == Some(name),
            final(self).module == old(self).module,
            final(self).panicked == old(self).panicked,
            final(self).lifecycle == old(self).lifecycle,
    {
        self.name = Some(name);
    }

    /// Installs the module produced by a successful setup: patches the
    /// shared dispatch function into every descriptor and takes ownership.
    /// Leaves the holder configured, ready for boot.
    pub fn set_mod(&mut self, module: Module<A, C>)
        requires
            old(self).lifecycle is Empty,
            old(self).wf(),
            module.wf(),
        ensures
            final(self).lifecycle is Configured,
            !final(self).panicked,
            final(self).name == old(self).name,
            final(self).module matches Some(m) && {
                &&& m.user_data == module.user_data
                &&& m.bintable == module.bintable
                &&& m.strings == module.strings
                &&& m.descs().len() == module.descs().len()
                &&& forall|i: int|
                    0 <= i < m.descs().len()
                        ==> same_desc(#[trigger] m.descs()[i], module.descs()[i])
                &&& m.wf()
                &&& m.handlers_installed()
            },
            final(self).wf(),
    {
        let ghost morig = module;
        let mut module = module;
        let list = match free_list(&mut module.features.binaries) {
            Some(list) => list,
            None => vstd::pervasive::unreached(),
        };
        let list = install_handlers(list);
        module.features.binaries = Some(list);
        self.module = Some(module);
        self.lifecycle = Lifecycle::Configured;
        proof {
            let m = self.module->Some_0;
            assert(m.names() == morig.names());
            assert(m.strings.deep_view() == morig.strings.deep_view());
            assert forall|i: int| 0 <= i < m.descs().len() implies same_desc(
                #[trigger] m.descs()[i],
                morig.descs()[i],
            ) by {}
            assert forall|i: int| 0 <= i < m.descs().len() implies #[trigger] m.descs()[i].name@
                == m.names()[i] by {
                assert(same_desc(m.descs()[i], morig.descs()[i]));
                assert(morig.descs()[i].name@ == morig.names()[i]);
            }
            assert forall|i: int| 0 <= i < m.descs().len() implies #[trigger] m.descs()[i].wf(
                m.strings.deep_view().len() as int,
            ) by {
                assert(same_desc(m.descs()[i], morig.descs()[i]));
                assert(morig.descs()[i].wf(morig.strings.deep_view().len() as int));
            }
            assert forall|i: int| 0 <= i < m.strings.deep_view().len() implies !has_nul(
                #[trigger] m.strings.deep_view()[i],
            ) by {
                assert(!has_nul(morig.strings.deep_view()[i]));
            }
        }
    }

    /// The boot hook. Reserved for future host-side wrapper registration;
    /// it only advances a configured module to live and always succeeds.
    pub fn boot(&mut self) -> (r: i32)
        requires
            old(self).wf(),
        ensures
            r == CODE_OK,
            old(self).lifecycle is Configured ==> final(self).lifecycle is Live,
            !(old(self).lifecycle is Configured) ==> final(self).lifecycle == old(self).lifecycle,
            final(self).module == old(self).module,
            final(self).panicked == old(self).panicked,
            final(self).name == old(self).name,
            final(self).wf(),
    {
        match self.lifecycle {
            Lifecycle::Configured => {
                self.lifecycle = Lifecycle::Live;
            },
            _ => {},
        }
        CODE_OK
    }

    /// Whether a module is currently held.
    pub fn has_module(&self) -> (r: bool)
        ensures
            r == (self.module is Some),
    {
        self.module.is_some()
    }

    /// Whether a panic has been recorded.
    pub fn panicked(&self) -> (r: bool)
        ensures
            r == self.panicked,
    {
        self.panicked
    }

    /// The recorded loadable name, if any.
    pub fn get_name(&self) -> (r: Option<&String>)
        ensures
            match r {
                Some(n) => self.name == Some(*n),
                None => self.name is None,
            },
    {
        self.name.as_ref()
    }

    /// Records an observed panic: the holder is poisoned for good and the
    /// host receives the severe-failure code.
    pub fn note_panic(&mut self) -> (r: i32)
        ensures
            r == CODE_SEVERE,
            final(self).panicked,
            final(self).lifecycle is Poisoned,
            final(self).module == old(self).module,
            final(self).name == old(self).name,
            final(self).wf(),
    {
        self.panicked = true;
        self.lifecycle = Lifecycle::Poisoned;
        CODE_SEVERE
    }

    /// The finish step: releases the held module and returns the holder
    /// to empty — unless a panic was recorded, in which case the module is
    /// deliberately retained forever, since freeing possibly torn state
    /// would be worse than leaking it. Callable in every state; after a
    /// failed setup it finds nothing to do.
    pub fn drop_mod(&mut self) -> (r: i32)
        requires
            old(self).wf(),
        ensures
            r == CODE_OK,
            old(self).panicked ==> *final(self) == *old(self),
            !old(self).panicked ==> final(self).module is None
                && final(self).lifecycle is Empty
                && !final(self).panicked
                && final(self).name == old(self).name,
            final(self).wf(),
    {
        if !self.panicked {
            self.module = None;
            self.lifecycle = Lifecycle::Empty;
        }
        CODE_OK
    }

    /// Resolves one command call: finds the live module, looks the name up
    /// in the registry, runs the handler on the module's user state, and
    /// reports what happened. Invoked without a held module — the host
    /// breaking its own protocol — it poisons the holder like a panic.
    /// Only the module's user state can change; the registry, the feature
    /// record and the held strings come through untouched.
    pub fn dispatch(&mut self, name: &Vec<u8>, args: &CStrArray, opts: &Opts) -> (r:
        DispatchOutcome)
        requires
            old(self).wf(),
            args.wf(),
            opts.wf(),
        ensures
            final(self).name == old(self).name,
            r is NoModule <==> old(self).module is None,
            old(self).module is None ==> final(self).panicked
                && final(self).lifecycle is Poisoned
                && final(self).module is None,
            old(self).module is Some ==> {
                &&& final(self).panicked == old(self).panicked
                &&& final(self).lifecycle == old(self).lifecycle
                &&& final(self).module matches Some(m)
                &&& m.bintable == old(self).module->Some_0.bintable
                &&& m.features == old(self).module->Some_0.features
                &&& m.strings == old(self).module->Some_0.strings
                &&& (r is UnknownCommand <==> !old(self).held_names().contains(name@))
                &&& (r is Done <==> old(self).held_names().contains(name@))
            },
            final(self).wf(),
    {
        match &mut self.module {
            None => {
                self.panicked = true;
                self.lifecycle = Lifecycle::Poisoned;
                DispatchOutcome::NoModule
            },
            Some(m) => {
                match m.bintable.find(name) {
                    None => DispatchOutcome::UnknownCommand,
                    Some(i) => {
                        proof {
                            assert(m.names().contains(name@)) by {
                                assert(m.names()[i as int] == name@);
                            }
                        }
                        let res = m.bintable.entries[i].handler.call(
                            &mut m.user_data,
                            name,
                            args,
                            opts,
                        );
                        DispatchOutcome::Done(res)
                    },
                }
            },
        }
    }

    /// The host-facing shape of dispatch: resolves the call and hands
    /// back the integer code — success and ordinary failure from the
    /// handler, the distinct unknown-command code, and the severe code
    /// (with the holder poisoned) when no module is held. The boundary
    /// code uses [`Self::dispatch`] directly when it also wants the error
    /// message for the host's warning printer.
    pub fn builtin_callback(&mut self, name: &Vec<u8>, args: &CStrArray, opts: &Opts) -> (r: i32)
        requires
            old(self).wf(),
            args.wf(),
            opts.wf(),
        ensures
            final(self).name == old(self).name,
            old(self).module is None ==> r == CODE_SEVERE
                && final(self).panicked
                && final(self).lifecycle is Poisoned,
            old(self).module is Some ==> {
                &&& final(self).panicked == old(self).panicked
                &&& final(self).lifecycle == old(self).lifecycle
                &&& (!old(self).held_names().contains(name@) ==> r == CODE_UNKNOWN_COMMAND)
                &&& (old(self).held_names().contains(name@) ==> r == CODE_OK || r == CODE_ERROR)
            },
            final(self).wf(),
    {
        let outcome = self.dispatch(name, args, opts);
        dispatch_code(&outcome)
    }
}

/// Patches the shared dispatch function into every descriptor of the
/// transplanted builtin list, leaving every other field as registered.
fn install_handlers(list: Vec<BinDesc>) -> (r: Vec<BinDesc>)
    ensures
        r@.len() == list@.len(),
        forall|i: int| 0 <= i < r@.len() ==> same_desc(#[trigger] r@[i], list@[i]),
        forall|i: int| 0 <= i < r@.len() ==> #[trigger] r@[i].handler_installed,
{
    let ghost orig = list@;
    let mut list = list;
    let mut out: Vec<BinDesc> = Vec::new();
    while list.len() > 0
        invariant
            out@.len() + list@.len() == orig.len(),
            forall|j: int| 0 <= j < list@.len() ==> list@[j] == orig[out@.len() + j],
            forall|j: int| 0 <= j < out@.len() ==> same_desc(#[trigger] out@[j], orig[j]),
            forall|j: int| 0 <= j < out@.len() ==> #[trigger] out@[j].handler_installed,
        decreases list@.len(),
    {
        let mut d = list.remove(0);
        d.handler_installed = true;
        out.push(d);
    }
    out
}

} // verus!
