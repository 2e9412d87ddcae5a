//! A safety layer over the host interpreter's loadable-module interface.
//!
//! The host loads a shared library, drives it through a fixed lifecycle
//! (setup, boot, feature bookkeeping, command calls, cleanup, finish), and
//! reads command descriptors directly out of memory this library owns. The
//! types here model that protocol over plain values: command registration
//! and lookup, the lifecycle state machine, ownership of the descriptor
//! arrays, and translation of handler results into the integer codes the
//! host expects.

use vstd::prelude::*;
use vstd::string::{StrSliceExecFns, StringSliceAdditionalSpecFns};

mod bytes;
mod digits;
mod error;
mod export_module;
mod features;
mod files;
mod options;
mod param;
mod string_array;
mod variable;
mod zsh;

use bytes::{bytes_eq, clone_bytes};

pub use bytes::has_nul;
pub use digits::{format_isize, spec_digits};
pub use error::{ErrorCode, ZError};
pub use export_module::{
    dispatch_code, handle_maybe_error, DispatchOutcome, Lifecycle, ModuleHolder, CODE_ERROR,
    CODE_OK, CODE_SEVERE, CODE_UNKNOWN_COMMAND,
};
pub use features::{free_list, BinDesc, CondDesc, Features, MathFuncDesc, ParamDefDesc};
pub use files::FilePath;
pub use options::Opts;
pub use param::{
    flags_for, lemma_param_roundtrip, lemma_type_bits_roundtrip, spec_decoded, spec_flags_for,
    spec_only_type, valid_type_bits, value_matches_type, fetch_matches_type, GsuValue, Param,
    ParamFlags, ParamType, ParamValue, PM_ARRAY, PM_EFLOAT, PM_FFLOAT, PM_HASHED, PM_INTEGER,
    PM_SCALAR, PM_TYPE_MASK,
};
pub use string_array::CStrArray;
pub use variable::{
    InteractionType, TypeFlags, VarError, VarIntrospectionError, VarTypesetError, VariableKey,
};
pub use zsh::{eval_outcome, source_outcome, InternalError, SOURCE_OK};

verus! {

/// Outcome type for operations that only report failure.
pub type MaybeZError = Result<(), ZError>;

/// A command handler. The dispatch bridge calls `call` with the module's
/// user state, the name the command was invoked under, and views over the
/// arguments and options the host passed.
///
/// One handler type serves a whole module: a module registering several
/// commands chooses a type (typically an enum, one variant per command)
/// whose `call` branches on its own value or on the name.
pub trait Cmd<A> {
    /// Runs the command against the module's user state.
    fn call(&self, userdata: &mut A, name: &Vec<u8>, args: &CStrArray, opts: &Opts) -> MaybeZError
        requires
            args.wf(),
            opts.wf(),
    ;
}

/// Registration-time properties of one builtin command: its name, its
/// argument-count bounds, and the option letters it recognizes.
///
/// The bounds and option letters travel to the host inside the command's
/// descriptor, and the host enforces them before it invokes the handler;
/// this library deliberately does not revalidate argument counts at
/// dispatch time.
pub struct Builtin {
    /// The command name, without embedded NUL.
    pub name: Vec<u8>,
    /// Minimum number of arguments; defaults to 0.
    pub minargs: i32,
    /// Maximum number of arguments; -1 means unbounded.
    pub maxargs: i32,
    /// The option letters the command recognizes, if any.
    pub flags: Option<Vec<u8>>,
}

impl Builtin {
    /// The name and the option string, if any, are valid C string payloads.
    pub open spec fn wf(&self) -> bool {
        &&& !has_nul(self.name@)
        &&& match self.flags {
            Some(f) => !has_nul(f@),
            None => true,
        }
    }

    /// A command with the given name that takes any number of arguments
    /// and recognizes no options.
    pub fn new(name: &str) -> (r: Builtin)
        requires
            !has_nul(name.spec_bytes()),
        ensures
            r.name@ == name.spec_bytes(),
            r.minargs == 0,
            r.maxargs == -1,
            r.flags is None,
            r.wf(),
    {
        Builtin { name: name.as_bytes_vec(), minargs: 0, maxargs: -1, flags: None }
    }

    /// Sets the minimum number of arguments the command accepts.
    pub fn minargs(self, value: i32) -> (r: Builtin)
        requires
            value >= 0,
        ensures
            r == (Builtin { minargs: value, ..self }),
    {
        Builtin { minargs: value, ..self }
    }

    /// Sets the maximum number of arguments, `None` meaning unbounded.
    pub fn maxargs(self, value: Option<u32>) -> (r: Builtin)
        requires
            match value {
                Some(v) => v <= i32::MAX,
                None => true,
            },
        ensures
            r.name == self.name,
            r.minargs == self.minargs,
            r.flags == self.flags,
            r.maxargs == match value {
                Some(v) => v as i32,
                None => -1i32,
            },
    {
        let maxargs: i32 = match value {
            Some(v) => v as i32,
            None => -1,
        };
        Builtin { maxargs, ..self }
    }

    /// Sets the option letters the command recognizes.
    pub fn flags(self, value: &str) -> (r: Builtin)
        requires
            !has_nul(value.spec_bytes()),
        ensures
            r.name == self.name,
            r.minargs == self.minargs,
            r.maxargs == self.maxargs,
            r.flags matches Some(f) && f@ == value.spec_bytes(),
    {
        Builtin { flags: Some(value.as_bytes_vec()), ..self }
    }
}

/// One registered command: its name and the handler value it dispatches to.
pub struct BinEntry<C> {
    /// The command name, without embedded NUL.
    pub name: Vec<u8>,
    /// The handler invoked when the host calls the command.
    pub handler: C,
}

/// The command registry: a name-keyed table of handlers. Names are unique;
/// insertion order is kept but carries no meaning.
pub struct Bintable<C> {
    /// The registered commands.
    pub entries: Vec<BinEntry<C>>,
}

impl<C> Bintable<C> {
    /// The registered names, in insertion order.
    pub open spec fn names(&self) -> Seq<Seq<u8>> {
        Seq::new(self.entries@.len(), |i: int| self.entries@[i].name@)
    }

    /// Whether `name` is registered.
    pub open spec fn spec_contains(&self, name: Seq<u8>) -> bool {
        self.names().contains(name)
    }

    /// Names are pairwise distinct and are valid C string payloads.
    pub open spec fn wf(&self) -> bool {
        &&& forall|i: int, j: int|
            0 <= i < j < self.names().len()
                ==> #[trigger] self.names()[i] != #[trigger] self.names()[j]
        &&& forall|i: int| 0 <= i < self.names().len() ==> !has_nul(#[trigger] self.names()[i])
    }

    /// An empty registry.
    pub fn new() -> (r: Bintable<C>)
        ensures
            r.entries@.len() == 0,
            r.wf(),
    {
        Bintable { entries: Vec::new() }
    }

    /// The slot holding `name`, or `None` when `name` is not registered.
    pub fn find(&self, name: &Vec<u8>) -> (r: Option<usize>)
        ensures
            match r {
                Some(i) => i < self.names().len() && self.names()[i as int] == name@,
                None => !self.spec_contains(name@),
            },
    {
        let mut i: usize = 0;
        while i < self.entries.len()
            invariant
                i <= self.entries@.len(),
                forall|j: int| 0 <= j < i ==> #[trigger] self.names()[j] != name@,
            decreases self.entries@.len() - i,
        {
            if bytes_eq(&self.entries[i].name, name) {
                return Some(i);
            }
            i += 1;
        }
        proof {
            if self.spec_contains(name@) {
                let w = choose|w: int| 0 <= w < self.names().len() && self.names()[w] == name@;
                assert(self.names()[w] != name@);
            }
        }
        None
    }

    /// Whether `name` is registered.
    pub fn contains_name(&self, name: &Vec<u8>) -> (r: bool)
        ensures
            r == self.spec_contains(name@),
    {
        match self.find(name) {
            Some(i) => {
                proof {
                    assert(self.names().contains(name@)) by {
                        assert(self.names()[i as int] == name@);
                    }
                }
                true
            },
            None => false,
        }
    }
}

/// Field-for-field agreement of two descriptors, ignoring whether the
/// dispatch function has been installed.
pub open spec fn same_desc(a: BinDesc, b: BinDesc) -> bool {
    &&& a.name@ == b.name@
    &&& a.minargs == b.minargs
    &&& a.maxargs == b.maxargs
    &&& a.flags == b.flags
}

/// Accumulates command registrations and user state, then freezes them
/// into a [`Module`].
pub struct ModuleBuilder<A, C> {
    /// The module's user state, handed to every handler call.
    pub user_data: A,
    /// The accumulated command descriptors, in registration order.
    pub binaries: Vec<BinDesc>,
    /// The accumulated handler registry, in registration order.
    pub bintable: Bintable<C>,
    /// Auxiliary strings (option letters) the descriptors point into.
    pub strings: Vec<Vec<u8>>,
}

impl<A, C> ModuleBuilder<A, C> {
    /// The registered names, in registration order.
    pub open spec fn names(&self) -> Seq<Seq<u8>> {
        self.bintable.names()
    }

    /// The held auxiliary strings.
    pub open spec fn held_strings(&self) -> Seq<Seq<u8>> {
        self.strings.deep_view()
    }

    /// The descriptors and the registry agree name for name, every
    /// descriptor's option-string index points into the held strings, and
    /// no held string or name carries an embedded NUL.
    pub open spec fn wf(&self) -> bool {
        &&& self.bintable.wf()
        &&& self.binaries@.len() == self.names().len()
        &&& forall|i: int|
            0 <= i < self.binaries@.len() ==> #[trigger] self.binaries@[i].name@ == self.names()[i]
        &&& forall|i: int|
            0 <= i < self.binaries@.len()
                ==> #[trigger] self.binaries@[i].wf(self.held_strings().len() as int)
        &&& forall|i: int|
            0 <= i < self.held_strings().len() ==> !has_nul(#[trigger] self.held_strings()[i])
    }

    /// An empty builder holding the supplied user state.
    pub fn new(user_data: A) -> (r: ModuleBuilder<A, C>)
        ensures
            r.user_data == user_data,
            r.names().len() == 0,
            r.binaries@.len() == 0,
            r.held_strings().len() == 0,
            r.wf(),
    {
        let r = ModuleBuilder {
            user_data,
            binaries: Vec::new(),
            bintable: Bintable::new(),
            strings: Vec::new(),
        };
        proof {
            assert(r.held_strings() =~= Seq::<Seq<u8>>::empty());
        }
        r
    }

    /// Registers a command described by `builtin`, dispatching to `cmd`.
    /// Fails, leaving nothing registered, when the name is already taken.
    pub fn builtin(self, cmd: C, builtin: Builtin) -> (r: Result<ModuleBuilder<A, C>, ZError>)
        requires
            self.wf(),
            builtin.wf(),
        ensures
            r is Err <==> self.names().contains(builtin.name@),
            r matches Err(e) ==> e is DuplicateName,
            r matches Ok(b) ==> {
                &&& b.wf()
                &&& b.user_data == self.user_data
                &&& b.names() == self.names().push(builtin.name@)
                &&& b.binaries@.len() == self.binaries@.len() + 1
                &&& forall|i: int|
                    0 <= i < self.binaries@.len()
                        ==> #[trigger] b.binaries@[i] == self.binaries@[i]
                &&& forall|i: int|
                    0 <= i < self.binaries@.len()
                        ==> #[trigger] b.bintable.entries@[i] == self.bintable.entries@[i]
                &&& b.bintable.entries@.last().name@ == builtin.name@
                &&& b.bintable.entries@.last().handler == cmd
                &&& b.binaries@.last().name@ == builtin.name@
                &&& b.binaries@.last().minargs == builtin.minargs
                &&& b.binaries@.last().maxargs == builtin.maxargs
                &&& !b.binaries@.last().handler_installed
                &&& match builtin.flags {
                    None => b.held_strings() == self.held_strings()
                        && b.binaries@.last().flags is None,
                    Some(f) => b.held_strings() == self.held_strings().push(f@)
                        && (b.binaries@.last().flags matches Some(fi) && fi == self.strings@.len()),
                }
            },
    {
        let Builtin { name, minargs, maxargs, flags } = builtin;
        self.add_builtin(name, minargs, maxargs, flags, cmd)
    }

    /// Appends `value` to the held strings, returning the index the
    /// descriptor will carry in place of a raw pointer into the string.
    fn hold_cstring(&mut self, value: Vec<u8>) -> (r: usize)
        ensures
            final(self).held_strings() == old(self).held_strings().push(value@),
            r == old(self).strings@.len(),
            final(self).user_data == old(self).user_data,
            final(self).binaries == old(self).binaries,
            final(self).bintable == old(self).bintable,
    {
        let r = self.strings.len();
        self.strings.push(value);
        proof {
            assert(self.strings.deep_view() =~~= old(self).strings.deep_view().push(value@));
        }
        r
    }

    /// Registers one command from its parts. Fails on a duplicate name;
    /// otherwise appends a descriptor (dispatch function not yet
    /// installed), holds the option string if one was given, and records
    /// the handler under the name.
    pub fn add_builtin(
        self,
        name: Vec<u8>,
        minargs: i32,
        maxargs: i32,
        options: Option<Vec<u8>>,
        cb: C,
    ) -> (r: Result<ModuleBuilder<A, C>, ZError>)
        requires
            self.wf(),
            !has_nul(name@),
            match options {
                Some(f) => !has_nul(f@),
                None => true,
            },
        ensures
            r is Err <==> self.names().contains(name@),
            r matches Err(e) ==> e is DuplicateName,
            r matches Ok(b) ==> {
                &&& b.wf()
                &&& b.user_data == self.user_data
                &&& b.names() == self.names().push(name@)
                &&& b.binaries@.len() == self.binaries@.len() + 1
                &&& forall|i: int|
                    0 <= i < self.binaries@.len()
                        ==> #[trigger] b.binaries@[i] == self.binaries@[i]
                &&& forall|i: int|
                    0 <= i < self.binaries@.len()
                        ==> #[trigger] b.bintable.entries@[i] == self.bintable.entries@[i]
                &&& b.bintable.entries@.last().name@ == name@
                &&& b.bintable.entries@.last().handler == cb
                &&& b.binaries@.last().name@ == name@
                &&& b.binaries@.last().minargs == minargs
                &&& b.binaries@.last().maxargs == maxargs
                &&& !b.binaries@.last().handler_installed
                &&& match options {
                    None => b.held_strings() == self.held_strings()
                        && b.binaries@.last().flags is None,
                    Some(f) => b.held_strings() == self.held_strings().push(f@)
                        && (b.binaries@.last().flags matches Some(fi) && fi == self.strings@.len()),
                }
            },
    {
        let mut this = self;
        if this.bintable.contains_name(&name) {
            return Err(ZError::DuplicateName);
        }
        let flags: Option<usize> = match options {
            Some(f) => Some(this.hold_cstring(f)),
            None => None,
        };
        let desc_name = clone_bytes(&name);
        this.binaries.push(
            BinDesc { name: desc_name, minargs, maxargs, flags, handler_installed: false },
        );
        this.bintable.entries.push(BinEntry { name, handler: cb });
        proof {
            assert forall|i: int| 0 <= i < this.binaries@.len() implies
                #[trigger] this.binaries@[i].wf(this.held_strings().len() as int) by {
                if i < self.binaries@.len() {
                    assert(self.binaries@[i].wf(self.held_strings().len() as int));
                }
            }
            assert forall|i: int| 0 <= i < this.held_strings().len() implies !has_nul(
                #[trigger] this.held_strings()[i],
            ) by {
                if i < self.held_strings().len() {
                    assert(!has_nul(self.held_strings()[i]));
                }
            }
            assert(this.names() =~= self.names().push(this.bintable.entries@.last().name@));
            assert forall|i: int, j: int| 0 <= i < j < this.names().len() implies
                #[trigger] this.names()[i] != #[trigger] this.names()[j] by {
                if j < this.names().len() - 1 {
                    assert(self.names()[i] != self.names()[j]);
                } else {
                    assert(!self.names().contains(this.names()[j]));
                    assert(self.names()[i] == this.names()[i]);
                }
            }
        }
        Ok(this)
    }

    /// Freezes the builder into an immutable, ready-to-install module.
    pub fn build(self) -> (m: Module<A, C>)
        requires
            self.wf(),
        ensures
            m.user_data == self.user_data,
            m.bintable == self.bintable,
            m.strings == self.strings,
            m.features.binaries == Some(self.binaries),
            m.features.conditions is None,
            m.features.math_funcs is None,
            m.features.param_defs is None,
            m.wf(),
    {
        Module::new(self)
    }
}

/// Law: in a well-formed module a registered command name occupies exactly
/// one registry slot — two slots holding the same name are the same slot.
pub proof fn lemma_lookup_unique<A, C>(m: &Module<A, C>, name: Seq<u8>, i: int, j: int)
    requires
        m.wf(),
        0 <= i < m.names().len(),
        0 <= j < m.names().len(),
        m.names()[i] == name,
        m.names()[j] == name,
    ensures
        i == j,
{
    if i < j {
        assert(m.names()[i] != m.names()[j]);
    }
    if j < i {
        assert(m.names()[j] != m.names()[i]);
    }
}

/// Law: a name that is not registered occupies no registry slot, so no
/// lookup of it can succeed.
pub proof fn lemma_lookup_absent<A, C>(m: &Module<A, C>, name: Seq<u8>, i: int)
    requires
        !m.bintable.spec_contains(name),
        0 <= i < m.names().len(),
    ensures
        m.names()[i] != name,
{
    if m.names()[i] == name {
        assert(m.names().contains(name));
    }
}

/// The single live module: user state, the host-visible feature record,
/// the command registry, and the auxiliary strings the descriptors point
/// into.
pub struct Module<A, C> {
    /// The module's user state, handed to every handler call.
    pub user_data: A,
    /// The feature record the host reads; owns the builtin descriptors.
    pub features: Features,
    /// The command registry consulted on every dispatch.
    pub bintable: Bintable<C>,
    /// Auxiliary strings whose lifetime must outlast `features`.
    pub strings: Vec<Vec<u8>>,
}

impl<A, C> Module<A, C> {
    /// The registered names, in registration order.
    pub open spec fn names(&self) -> Seq<Seq<u8>> {
        self.bintable.names()
    }

    /// The builtin descriptor list inside the feature record.
    pub open spec fn descs(&self) -> Seq<BinDesc> {
        self.features.binaries->Some_0@
    }

    /// The feature record holds one descriptor per registry entry, name
    /// for name; option-string indices point into the held strings; no
    /// name or held string carries an embedded NUL.
    pub open spec fn wf(&self) -> bool {
        &&& self.bintable.wf()
        &&& self.features.binaries is Some
        &&& self.descs().len() == self.names().len()
        &&& forall|i: int|
            0 <= i < self.descs().len() ==> #[trigger] self.descs()[i].name@ == self.names()[i]
        &&& forall|i: int|
            0 <= i < self.descs().len()
                ==> #[trigger] self.descs()[i].wf(self.strings.deep_view().len() as int)
        &&& forall|i: int|
            0 <= i < self.strings.deep_view().len()
                ==> !has_nul(#[trigger] self.strings.deep_view()[i])
    }

    /// Every descriptor has had the shared dispatch function installed.
    pub open spec fn handlers_installed(&self) -> bool {
        forall|i: int|
            0 <= i < self.descs().len() ==> #[trigger] self.descs()[i].handler_installed
    }

    /// Freezes a builder's accumulated registrations into a module.
    fn new(desc: ModuleBuilder<A, C>) -> (m: Module<A, C>)
        requires
            desc.wf(),
        ensures
            m.user_data == desc.user_data,
            m.bintable == desc.bintable,
            m.strings == desc.strings,
            m.features.binaries == Some(desc.binaries),
            m.features.conditions is None,
            m.features.math_funcs is None,
            m.features.param_defs is None,
            m.wf(),
    {
        let features = Features::empty().with_binaries(desc.binaries);
        let m = Module {
            user_data: desc.user_data,
            features,
            bintable: desc.bintable,
            strings: desc.strings,
        };
        proof {
            assert(m.descs() == desc.binaries@);
            assert(m.strings.deep_view() == desc.strings.deep_view());
            assert forall|i: int| 0 <= i < m.descs().len() implies #[trigger] m.descs()[i].wf(
                m.strings.deep_view().len() as int,
            ) by {
                assert(desc.binaries@[i].wf(desc.held_strings().len() as int));
            }
            assert forall|i: int| 0 <= i < m.strings.deep_view().len() implies !has_nul(
                #[trigger] m.strings.deep_view()[i],
            ) by {
                assert(!has_nul(desc.held_strings()[i]));
            }
        }
        m
    }
}

} // verus!
