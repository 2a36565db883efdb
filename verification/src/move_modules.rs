//! Module change normalization: module-publish and module-delete write-set
//! changes become canonical `MoveModule` records.
//!
//! The bytecode ABI parser is an external collaborator: a publish event
//! arrives with the ABI the parser resolved from its bytecode, or with none
//! when the parse failed or the module carries no ABI section. Decode failure
//! degrades gracefully into an absent-metadata record and a warning; it is
//! distinct from deletion and never aborts normalization.

use vstd::prelude::*;

use crate::util::{Timestamp, Warning};

verus! {

/// ABI metadata of one module, as the external bytecode parser resolved it:
/// the module's address and name, and its exposed functions, friend modules
/// and struct definitions, each descriptor already serialized on its own,
/// in declaration order.
#[derive(Clone, Debug, PartialEq)]
pub struct ModuleAbi {
    pub address: String,
    pub name: String,
    pub exposed_functions: Vec<String>,
    pub friends: Vec<String>,
    pub structs: Vec<String>,
}

/// Mathematical model of `ModuleAbi`.
pub ghost struct ModuleAbiView {
    pub address: Seq<char>,
    pub name: Seq<char>,
    pub exposed_functions: Seq<Seq<char>>,
    pub friends: Seq<Seq<char>>,
    pub structs: Seq<Seq<char>>,
}

impl View for ModuleAbi {
    type V = ModuleAbiView;

    open spec fn view(&self) -> ModuleAbiView {
        ModuleAbiView {
            address: self.address@,
            name: self.name@,
            exposed_functions: self.exposed_functions.deep_view(),
            friends: self.friends.deep_view(),
            structs: self.structs.deep_view(),
        }
    }
}

/// A module blob from a write-set change: the raw bytecode bytes and the ABI
/// the external parser resolved from them. `abi` is `None` when the parse
/// failed or the parsed module had no ABI section.
#[derive(Clone, Debug, PartialEq)]
pub struct MoveModuleBytecode {
    pub bytecode: Vec<u8>,
    pub abi: Option<ModuleAbi>,
}

/// Mathematical model of `MoveModuleBytecode`.
pub ghost struct MoveModuleBytecodeView {
    pub bytecode: Seq<u8>,
    pub abi: Option<ModuleAbiView>,
}

impl View for MoveModuleBytecode {
    type V = MoveModuleBytecodeView;

    open spec fn view(&self) -> MoveModuleBytecodeView {
        MoveModuleBytecodeView {
            bytecode: self.bytecode@,
            abi: match self.abi {
                Some(abi) => Some(abi@),
                None => None,
            },
        }
    }
}

/// A module-publish write-set change: the target address and the published
/// module blob.
#[derive(Clone, Debug, PartialEq)]
pub struct WriteModule {
    pub address: String,
    pub data: MoveModuleBytecode,
}

/// Mathematical model of `WriteModule`.
pub ghost struct WriteModuleView {
    pub address: Seq<char>,
    pub data: MoveModuleBytecodeView,
}

impl View for WriteModule {
    type V = WriteModuleView;

    open spec fn view(&self) -> WriteModuleView {
        WriteModuleView { address: self.address@, data: self.data@ }
    }
}

/// A module identifier: the owning address and the module name.
#[derive(Clone, Debug, PartialEq)]
pub struct ModuleId {
    pub address: String,
    pub name: String,
}

/// Mathematical model of `ModuleId`.
pub ghost struct ModuleIdView {
    pub address: Seq<char>,
    pub name: Seq<char>,
}

impl View for ModuleId {
    type V = ModuleIdView;

    open spec fn view(&self) -> ModuleIdView {
        ModuleIdView { address: self.address@, name: self.name@ }
    }
}

/// A module-delete write-set change: the target address and the identifier
/// of the removed module. No bytecode is present on deletion.
#[derive(Clone, Debug, PartialEq)]
pub struct DeleteModule {
    pub address: String,
    pub module: ModuleId,
}

/// Mathematical model of `DeleteModule`.
pub ghost struct DeleteModuleView {
    pub address: Seq<char>,
    pub module: ModuleIdView,
}

impl View for DeleteModule {
    type V = DeleteModuleView;

    open spec fn view(&self) -> DeleteModuleView {
        DeleteModuleView { address: self.address@, module: self.module@ }
    }
}

/// The structured result of a successful ABI decode: the module's address,
/// name and bytecode, and its three serialized metadata collections.
#[derive(Clone, Debug, PartialEq)]
pub struct MoveModuleByteCodeParsed {
    pub address: String,
    pub name: String,
    pub bytecode: Vec<u8>,
    pub exposed_functions: Vec<String>,
    pub friends: Vec<String>,
    pub structs: Vec<String>,
}

/// Mathematical model of `MoveModuleByteCodeParsed`.
pub ghost struct MoveModuleByteCodeParsedView {
    pub address: Seq<char>,
    pub name: Seq<char>,
    pub bytecode: Seq<u8>,
    pub exposed_functions: Seq<Seq<char>>,
    pub friends: Seq<Seq<char>>,
    pub structs: Seq<Seq<char>>,
}

impl View for MoveModuleByteCodeParsed {
    type V = MoveModuleByteCodeParsedView;

    open spec fn view(&self) -> MoveModuleByteCodeParsedView {
        MoveModuleByteCodeParsedView {
            address: self.address@,
            name: self.name@,
            bytecode: self.bytecode@,
            exposed_functions: self.exposed_functions.deep_view(),
            friends: self.friends.deep_view(),
            structs: self.structs.deep_view(),
        }
    }
}

/// Canonical record of a module's presence or removal at one point of chain
/// history. `(transaction_version, write_set_change_index)` is the composite
/// key. When `is_deleted` is true, the bytecode and all three metadata fields
/// are absent.
#[derive(Clone, Debug, PartialEq)]
pub struct MoveModule {
    pub transaction_version: i64,
    pub write_set_change_index: i64,
    pub name: String,
    pub address: String,
    pub bytecode: Option<Vec<u8>>,
    pub exposed_functions: Option<Vec<String>>,
    pub friends: Option<Vec<String>>,
    pub structs: Option<Vec<String>>,
    pub is_deleted: bool,
    pub inserted_at: Timestamp,
}

/// Mathematical model of a `MoveModule` record.
pub ghost struct MoveModuleView {
    pub transaction_version: i64,
    pub write_set_change_index: i64,
    pub name: Seq<char>,
    pub address: Seq<char>,
    pub bytecode: Option<Seq<u8>>,
    pub exposed_functions: Option<Seq<Seq<char>>>,
    pub friends: Option<Seq<Seq<char>>>,
    pub structs: Option<Seq<Seq<char>>>,
    pub is_deleted: bool,
    pub inserted_at: Timestamp,
}

impl View for MoveModule {
    type V = MoveModuleView;

    open spec fn view(&self) -> MoveModuleView {
        MoveModuleView {
            transaction_version: self.transaction_version,
            write_set_change_index: self.write_set_change_index,
            name: self.name@,
            address: self.address@,
            bytecode: match self.bytecode {
                Some(b) => Some(b@),
                None => None,
            },
            exposed_functions: self.exposed_functions.deep_view(),
            friends: self.friends.deep_view(),
            structs: self.structs.deep_view(),
            is_deleted: self.is_deleted,
            inserted_at: self.inserted_at,
        }
    }
}

/// What `MoveModule::convert_move_module` returns: the ABI's fields beside
/// the original bytecode, each metadata collection carried over element by
/// element in declaration order.
pub open spec fn spec_convert_move_module(
    abi: ModuleAbiView,
    bytecode: Seq<u8>,
) -> MoveModuleByteCodeParsedView {
    MoveModuleByteCodeParsedView {
        address: abi.address,
        name: abi.name,
        bytecode: bytecode,
        exposed_functions: abi.exposed_functions,
        friends: abi.friends,
        structs: abi.structs,
    }
}

/// What `MoveModule::convert_move_module_bytecode` returns: the structured
/// decode when an ABI is present, nothing otherwise.
pub open spec fn spec_convert_move_module_bytecode(
    mmb: MoveModuleBytecodeView,
) -> Option<MoveModuleByteCodeParsedView> {
    match mmb.abi {
        Some(abi) => Some(spec_convert_move_module(abi, mmb.bytecode)),
        None => None,
    }
}

/// The warnings one decode attempt appends: none when an ABI is present,
/// exactly one otherwise.
pub open spec fn spec_abi_warnings(mmb: MoveModuleBytecodeView) -> Seq<Warning> {
    if mmb.abi is Some {
        Seq::empty()
    } else {
        seq![Warning::AbiDecodeFailed]
    }
}

/// What `MoveModule::from_write_module` returns. The address comes from the
/// event itself, so it is present whether or not the decode succeeded; the
/// name and the optional fields come from the decode, the name defaulting to
/// the empty string on failure.
pub open spec fn spec_from_write_module(
    write_module: WriteModuleView,
    write_set_change_index: i64,
    transaction_version: i64,
    now: Timestamp,
) -> MoveModuleView {
    match spec_convert_move_module_bytecode(write_module.data) {
        Some(parsed) => MoveModuleView {
            transaction_version,
            write_set_change_index,
            name: parsed.name,
            address: write_module.address,
            bytecode: Some(parsed.bytecode),
            exposed_functions: Some(parsed.exposed_functions),
            friends: Some(parsed.friends),
            structs: Some(parsed.structs),
            is_deleted: false,
            inserted_at: now,
        },
        None => MoveModuleView {
            transaction_version,
            write_set_change_index,
            name: Seq::empty(),
            address: write_module.address,
            bytecode: None,
            exposed_functions: None,
            friends: None,
            structs: None,
            is_deleted: false,
            inserted_at: now,
        },
    }
}

/// What `MoveModule::from_delete_module` returns: name and address straight
/// from the deletion event, every optional field absent, `is_deleted` set.
pub open spec fn spec_from_delete_module(
    delete_module: DeleteModuleView,
    write_set_change_index: i64,
    transaction_version: i64,
    now: Timestamp,
) -> MoveModuleView {
    MoveModuleView {
        transaction_version,
        write_set_change_index,
        name: delete_module.module.name,
        address: delete_module.address,
        bytecode: None,
        exposed_functions: None,
        friends: None,
        structs: None,
        is_deleted: true,
        inserted_at: now,
    }
}

impl MoveModule {
    /// Normalizes a module-publish write-set change into a record, stamped
    /// with `now`. A failed decode appends exactly one warning and yields an
    /// absent-metadata record; the event is never rejected.
    pub fn from_write_module(
        write_module: WriteModule,
        write_set_change_index: i64,
        transaction_version: i64,
        now: Timestamp,
        warnings: &mut Vec<Warning>,
    ) -> (r: MoveModule)
        ensures
            r@ == spec_from_write_module(
                write_module@,
                write_set_change_index,
                transaction_version,
                now,
            ),
            final(warnings)@ == old(warnings)@ + spec_abi_warnings(write_module.data@),
    {
        let WriteModule { address, data } = write_module;
        let parsed_data = Self::convert_move_module_bytecode(data, warnings);
        match parsed_data {
            Some(parsed) => MoveModule {
                transaction_version,
                write_set_change_index,
                name: parsed.name,
                address,
                bytecode: Some(parsed.bytecode),
                exposed_functions: Some(parsed.exposed_functions),
                friends: Some(parsed.friends),
                structs: Some(parsed.structs),
                is_deleted: false,
                inserted_at: now,
            },
            None => MoveModule {
                transaction_version,
                write_set_change_index,
                name: String::new(),
                address,
                bytecode: None,
                exposed_functions: None,
                friends: None,
                structs: None,
                is_deleted: false,
                inserted_at: now,
            },
        }
    }

    /// Normalizes a module-delete write-set change into a record, stamped
    /// with `now`. No decode runs: deletion events carry no bytecode.
    pub fn from_delete_module(
        delete_module: DeleteModule,
        write_set_change_index: i64,
        transaction_version: i64,
        now: Timestamp,
    ) -> (r: MoveModule)
        ensures
            r@ == spec_from_delete_module(
                delete_module@,
                write_set_change_index,
                transaction_version,
                now,
            ),
    {
        let DeleteModule { address, module } = delete_module;
        MoveModule {
            transaction_version,
            write_set_change_index,
            name: module.name,
            address,
            bytecode: None,
            exposed_functions: None,
            friends: None,
            structs: None,
            is_deleted: true,
            inserted_at: now,
        }
    }

    /// Attempts the structured ABI decode of one module blob. With an ABI
    /// present the structured result comes back; without one the result is
    /// `None` and exactly one warning is appended — the caller substitutes
    /// absent metadata rather than failing.
    pub fn convert_move_module_bytecode(
        mmb: MoveModuleBytecode,
        warnings: &mut Vec<Warning>,
    ) -> (r: Option<MoveModuleByteCodeParsed>)
        ensures
            match r {
                Some(parsed) => spec_convert_move_module_bytecode(mmb@) == Some(parsed@),
                None => spec_convert_move_module_bytecode(mmb@) is None,
            },
            final(warnings)@ == old(warnings)@ + spec_abi_warnings(mmb@),
    {
        let MoveModuleBytecode { bytecode, abi } = mmb;
        match abi {
            Some(module_abi) => {
                let r = Some(Self::convert_move_module(module_abi, bytecode));
                assert(warnings@ =~= old(warnings)@ + spec_abi_warnings(mmb@));
                r
            },
            None => {
                warnings.push(Warning::AbiDecodeFailed);
                assert(warnings@ =~= old(warnings)@ + spec_abi_warnings(mmb@));
                None
            },
        }
    }

    /// Flattens a resolved ABI and the module's bytecode into the structured
    /// decode result, keeping every metadata collection in declaration order.
    pub fn convert_move_module(
        move_module: ModuleAbi,
        bytecode: Vec<u8>,
    ) -> (r: MoveModuleByteCodeParsed)
        ensures
            r@ == spec_convert_move_module(move_module@, bytecode@),
    {
        let ModuleAbi { address, name, exposed_functions, friends, structs } = move_module;
        MoveModuleByteCodeParsed {
            address,
            name,
            bytecode,
            exposed_functions,
            friends,
            structs,
        }
    }
}

/// Law: a publish event whose bytecode carried a resolved ABI yields a
/// record that is not a deletion and whose bytecode and three metadata
/// fields are all present.
pub proof fn lemma_publish_with_abi_populates_metadata(
    write_module: WriteModuleView,
    write_set_change_index: i64,
    transaction_version: i64,
    now: Timestamp,
)
    requires
        write_module.data.abi is Some,
    ensures
        ({
            let r = spec_from_write_module(
                write_module,
                write_set_change_index,
                transaction_version,
                now,
            );
            &&& !r.is_deleted
            &&& r.bytecode is Some
            &&& r.exposed_functions is Some
            &&& r.friends is Some
            &&& r.structs is Some
        }),
{
}

/// Law: a publish event whose bytecode decode failed yields a record that is
/// still not a deletion, with an empty name, the address taken from the
/// event, and the bytecode and all metadata fields absent — never a
/// partially populated record.
pub proof fn lemma_publish_without_abi_degrades(
    write_module: WriteModuleView,
    write_set_change_index: i64,
    transaction_version: i64,
    now: Timestamp,
)
    requires
        write_module.data.abi is None,
    ensures
        ({
            let r = spec_from_write_module(
                write_module,
                write_set_change_index,
                transaction_version,
                now,
            );
            &&& !r.is_deleted
            &&& r.name == Seq::<char>::empty()
            &&& r.address == write_module.address
            &&& r.bytecode is None
            &&& r.exposed_functions is None
            &&& r.friends is None
            &&& r.structs is None
        }),
{
}

/// Law: every deletion event yields a record with `is_deleted` set and the
/// bytecode and all metadata fields absent, whatever the input holds.
pub proof fn lemma_delete_is_bare(
    delete_module: DeleteModuleView,
    write_set_change_index: i64,
    transaction_version: i64,
    now: Timestamp,
)
    ensures
        ({
            let r = spec_from_delete_module(
                delete_module,
                write_set_change_index,
                transaction_version,
                now,
            );
            &&& r.is_deleted
            &&& r.bytecode is None
            &&& r.exposed_functions is None
            &&& r.friends is None
            &&& r.structs is None
        }),
{
}

/// Law: normalizing the same write-set change twice yields records that are
/// identical except for the record-creation stamp `inserted_at`.
pub proof fn lemma_module_records_idempotent(
    write_module: WriteModuleView,
    delete_module: DeleteModuleView,
    write_set_change_index: i64,
    transaction_version: i64,
    now1: Timestamp,
    now2: Timestamp,
)
    ensures
        ({
            let a = spec_from_write_module(
                write_module,
                write_set_change_index,
                transaction_version,
                now1,
            );
            let b = spec_from_write_module(
                write_module,
                write_set_change_index,
                transaction_version,
                now2,
            );
            a == MoveModuleView { inserted_at: now1, ..b }
        }),
        ({
            let a = spec_from_delete_module(
                delete_module,
                write_set_change_index,
                transaction_version,
                now1,
            );
            let b = spec_from_delete_module(
                delete_module,
                write_set_change_index,
                transaction_version,
                now2,
            );
            a == MoveModuleView { inserted_at: now1, ..b }
        }),
{
}

} // verus!
