//! The registry of computation definitions.
//!
//! A definition has to be registered before any request for its circuit can be
//! queued. It is written once: there is no update and no removal, so a
//! definition that a lookup has found stays as it is.

use crate::errors::ErrorCode;
use std::collections::HashMap;
use vstd::prelude::*;

verus! {

/// Refers to a registered definition by the offset of its circuit.
#[derive(Clone, Copy, Debug, PartialEq, Eq, Structural)]
pub struct DefinitionHandle {
    /// Offset derived from the circuit's name.
    pub offset: u32,
}

/// One circuit as the registry knows it.
#[derive(Clone, Copy, Debug, PartialEq, Eq, Structural)]
pub struct ComputationDefinition {
    /// Offset derived from the circuit's name.
    pub offset: u32,
    /// Number of encrypted operands that a request for the circuit carries.
    pub operands: usize,
}

/// The offset that `arcium_anchor::comp_def_offset` derives from a circuit's
/// name: the first four bytes of the name's SHA-256 digest, read as a
/// little-endian number.
pub uninterp spec fn definition_offset(name: Seq<char>) -> u32;

/// `arcium_anchor::comp_def_offset` computes its result from the name alone.
pub assume_specification[ arcium_anchor::comp_def_offset ](conf_ix_name: &str) -> (offset: u32)
    ensures
        offset == definition_offset(conf_ix_name@),
;

/// The handle of the circuit called `name`.
pub open spec fn circuit_handle(name: Seq<char>) -> DefinitionHandle {
    DefinitionHandle { offset: definition_offset(name) }
}

/// What registering `operands` under `offset` makes of `definitions`, and
/// what it returns: a taken offset is refused and nothing changes.
pub open spec fn registration(definitions: Map<u32, usize>, offset: u32, operands: usize) -> (
    Map<u32, usize>,
    Result<DefinitionHandle, ErrorCode>,
) {
    if definitions.contains_key(offset) {
        (definitions, Err(ErrorCode::AlreadyRegistered))
    } else {
        (definitions.insert(offset, operands), Ok(DefinitionHandle { offset }))
    }
}

/// What looking up `offset` in `definitions` returns.
pub open spec fn found(definitions: Map<u32, usize>, offset: u32) -> Result<
    DefinitionHandle,
    ErrorCode,
> {
    if definitions.contains_key(offset) {
        Ok(DefinitionHandle { offset })
    } else {
        Err(ErrorCode::UnknownCircuit)
    }
}

/// The definitions registered so far, each under the offset of its circuit.
pub struct Registry {
    definitions: HashMap<u32, usize>,
}

impl View for Registry {
    type V = Map<u32, usize>;

    /// The operand count of every registered definition, by offset.
    closed spec fn view(&self) -> Map<u32, usize> {
        self.definitions@
    }
}

impl Registry {
    /// A registry without definitions.
    pub fn new() -> (registry: Registry)
        ensures
            registry@ == Map::<u32, usize>::empty(),
    {
        Registry { definitions: HashMap::new() }
    }

    /// Registers a definition under a given offset.
    pub fn register_offset(&mut self, offset: u32, operands: usize) -> (result: Result<
        DefinitionHandle,
        ErrorCode,
    >)
        ensures
            final(self)@ == registration(old(self)@, offset, operands).0,
            result == registration(old(self)@, offset, operands).1,
    {
        broadcast use vstd::std_specs::hash::group_hash_axioms;

        if self.definitions.contains_key(&offset) {
            Err(ErrorCode::AlreadyRegistered)
        } else {
            self.definitions.insert(offset, operands);
            Ok(DefinitionHandle { offset })
        }
    }

    /// Registers the definition of the circuit called `name`. Fails with
    /// `AlreadyRegistered`, and changes nothing, if the offset derived from
    /// the name already holds a definition.
    pub fn register(&mut self, name: &str, operands: usize) -> (result: Result<
        DefinitionHandle,
        ErrorCode,
    >)
        ensures
            final(self)@ == registration(old(self)@, definition_offset(name@), operands).0,
            result == registration(old(self)@, definition_offset(name@), operands).1,
    {
        let offset = arcium_anchor::comp_def_offset(name);
        self.register_offset(offset, operands)
    }

    /// Finds the definition registered under a given offset.
    pub fn lookup_offset(&self, offset: u32) -> (result: Result<DefinitionHandle, ErrorCode>)
        ensures
            result == found(self@, offset),
    {
        broadcast use vstd::std_specs::hash::group_hash_axioms;

        if self.definitions.contains_key(&offset) {
            Ok(DefinitionHandle { offset })
        } else {
            Err(ErrorCode::UnknownCircuit)
        }
    }

    /// Finds the definition of the circuit called `name`. Fails with
    /// `UnknownCircuit` if none is registered.
    pub fn lookup(&self, name: &str) -> (result: Result<DefinitionHandle, ErrorCode>)
        ensures
            result == found(self@, definition_offset(name@)),
    {
        let offset = arcium_anchor::comp_def_offset(name);
        self.lookup_offset(offset)
    }

    /// The definition that a handle refers to, if it is registered.
    pub fn definition(&self, handle: DefinitionHandle) -> (definition: Option<
        ComputationDefinition,
    >)
        ensures
            definition == if self@.contains_key(handle.offset) {
                Some(
                    ComputationDefinition {
                        offset: handle.offset,
                        operands: self@[handle.offset],
                    },
                )
            } else {
                None
            },
    {
        broadcast use vstd::std_specs::hash::group_hash_axioms;

        match self.definitions.get(&handle.offset) {
            Some(operands) => Some(
                ComputationDefinition { offset: handle.offset, operands: *operands },
            ),
            None => None,
        }
    }
}

/// Registering a circuit a second time is refused, whatever the first attempt
/// came to, and leaves the registry as the first attempt left it.
pub proof fn lemma_second_registration_refused(
    definitions: Map<u32, usize>,
    name: Seq<char>,
    first: usize,
    second: usize,
)
    ensures
        ({
            let offset = definition_offset(name);
            let once = registration(definitions, offset, first).0;
            let twice = registration(once, offset, second);
            &&& twice.1 == Err::<DefinitionHandle, ErrorCode>(ErrorCode::AlreadyRegistered)
            &&& twice.0 == once
            &&& once.contains_key(offset)
            &&& definitions.contains_key(offset) ==> once == definitions
            &&& !definitions.contains_key(offset) ==> once[offset] == first
        }),
{
}

/// Registration never touches another circuit's definition, and a definition
/// once registered is found by every later lookup.
pub proof fn lemma_registration_keeps_definitions(
    definitions: Map<u32, usize>,
    offset: u32,
    operands: usize,
    other: u32,
)
    requires
        definitions.contains_key(other),
    ensures
        registration(definitions, offset, operands).0.contains_key(other),
        registration(definitions, offset, operands).0[other] == definitions[other],
        found(registration(definitions, offset, operands).0, other) == found(definitions, other),
{
}

} // verus!
