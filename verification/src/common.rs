//! Program identifiers, the closed set of backend vendors, and the registry
//! that maps the one to loaded programs of the other.

use std::str::FromStr;
use vstd::hash_map::StringHashMap;
use vstd::prelude::*;
use vstd::std_specs::cmp::PartialEqSpecImpl;
use vstd::std_specs::convert::FromSpecImpl;

verus! {

/// The backend family that produced a registered program.
#[derive(Debug, Clone, Copy, PartialEq, Eq, Structural)]
#[allow(non_camel_case_types)]
pub enum zkVMVendor {
    Risc0,
    SP1,
}

/// One of the three operations a request can ask of a registered program.
#[derive(Debug, Clone, Copy, PartialEq, Eq, Structural)]
pub enum Operation {
    Execute,
    Prove,
    Verify,
}

impl Operation {
    /// The name of the operation as it appears in messages.
    pub open spec fn name(self) -> Seq<char> {
        match self {
            Operation::Execute => "execute"@,
            Operation::Prove => "prove"@,
            Operation::Verify => "verify"@,
        }
    }

    /// The operation's name as an owned string.
    pub fn to_string(&self) -> (res: String)
        ensures
            res@ == self.name(),
    {
        match self {
            Operation::Execute => "execute".to_string(),
            Operation::Prove => "prove".to_string(),
            Operation::Verify => "verify".to_string(),
        }
    }
}

/// What `str::to_lowercase` returns for a string with the characters `s`.
pub uninterp spec fn lowercase_of(s: Seq<char>) -> Seq<char>;

/// Calls `str::to_lowercase`, which maps every character to its Unicode
/// lower-case equivalent. The contract only names the result.
#[verifier::external_body]
fn to_lowercase(s: &str) -> (res: String)
    ensures
        res@ == lowercase_of(s@),
{
    s.to_lowercase()
}

/// The vendor that a lower-cased name stands for, if any.
pub open spec fn vendor_named(lowered: Seq<char>) -> Option<zkVMVendor> {
    if lowered == "risc0"@ {
        Some(zkVMVendor::Risc0)
    } else if lowered == "sp1"@ {
        Some(zkVMVendor::SP1)
    } else {
        None
    }
}

/// The message reported for a name that stands for no vendor.
pub open spec fn unsupported_vendor_message(given: Seq<char>) -> Seq<char> {
    "Unsupported zkVM type: "@ + given + ". Supported types are: risc0, sp1"@
}

/// What parsing yields for a name `given` whose lower-cased form is `lowered`.
pub open spec fn vendor_parse_result(lowered: Seq<char>, given: Seq<char>, res: Result<
    zkVMVendor,
    String,
>) -> bool {
    match vendor_named(lowered) {
        Some(v) => res == Ok::<zkVMVendor, String>(v),
        None => res matches Err(m) && m@ == unsupported_vendor_message(given),
    }
}

/// Picks the vendor for an already lower-cased name; `given` is the name as
/// the caller wrote it and is quoted in the error.
pub fn vendor_from_lowercase(lowered: &str, given: &str) -> (res: Result<zkVMVendor, String>)
    ensures
        vendor_parse_result(lowered@, given@, res),
{
    let lowered = lowered.to_string();
    if lowered == "risc0".to_string() {
        Ok(zkVMVendor::Risc0)
    } else if lowered == "sp1".to_string() {
        Ok(zkVMVendor::SP1)
    } else {
        let mut message = "Unsupported zkVM type: ".to_string();
        message.append(given);
        message.append(". Supported types are: risc0, sp1");
        Err(message)
    }
}

impl zkVMVendor {
    /// The lower-case name of the vendor, as it appears in identifiers and messages.
    pub open spec fn name(self) -> Seq<char> {
        match self {
            zkVMVendor::Risc0 => "risc0"@,
            zkVMVendor::SP1 => "sp1"@,
        }
    }

    /// Whether engines of this vendor can carry out `op`. Risc0 programs are
    /// registered by name only and have no engine behind them.
    pub open spec fn supports(self, op: Operation) -> bool {
        self == zkVMVendor::SP1
    }

    /// The vendor's lower-case name as an owned string.
    pub fn to_string(&self) -> (res: String)
        ensures
            res@ == self.name(),
    {
        match self {
            zkVMVendor::Risc0 => "risc0".to_string(),
            zkVMVendor::SP1 => "sp1".to_string(),
        }
    }

    /// Decides whether engines of this vendor can carry out `op`.
    pub fn is_supported(&self, op: Operation) -> (res: bool)
        ensures
            res == self.supports(op),
    {
        match self {
            zkVMVendor::Risc0 => false,
            zkVMVendor::SP1 => true,
        }
    }

    /// Parses a vendor name, ignoring case.
    pub fn parse(s: &str) -> (res: Result<zkVMVendor, String>)
        ensures
            vendor_parse_result(lowercase_of(s@), s@, res),
    {
        let lowered = to_lowercase(s);
        vendor_from_lowercase(lowered.as_str(), s)
    }
}

impl FromStr for zkVMVendor {
    type Err = String;

    /// Parses a vendor name, ignoring case, as `zkVMVendor::parse` does.
    fn from_str(s: &str) -> (res: Result<Self, String>)
        ensures
            vendor_parse_result(lowercase_of(s@), s@, res),
    {
        zkVMVendor::parse(s)
    }
}

/// The identifier under which a program is registered.
#[derive(Debug, Hash)]
pub struct ProgramID(pub String);

impl View for ProgramID {
    type V = Seq<char>;

    open spec fn view(&self) -> Seq<char> {
        self.0@
    }
}

impl Clone for ProgramID {
    fn clone(&self) -> (res: Self)
        ensures
            res == *self,
    {
        ProgramID(self.0.clone())
    }
}

impl PartialEq for ProgramID {
    fn eq(&self, other: &Self) -> (res: bool) {
        self.0 == other.0
    }
}

impl Eq for ProgramID {

}

impl PartialEqSpecImpl for ProgramID {
    open spec fn obeys_eq_spec() -> bool {
        true
    }

    open spec fn eq_spec(&self, other: &Self) -> bool {
        self.0@ == other.0@
    }
}

impl From<zkVMVendor> for ProgramID {
    /// The fixed identifier of a vendor's built-in program: the vendor's name.
    fn from(value: zkVMVendor) -> (res: Self)
        ensures
            res@ == value.name(),
    {
        ProgramID(value.to_string())
    }
}

impl FromSpecImpl<zkVMVendor> for ProgramID {
    /// Identifiers are told apart by their characters, so the conversion is
    /// stated over the view by `from` itself and not as an equation of values.
    open spec fn obeys_from_spec() -> bool {
        false
    }

    open spec fn from_spec(value: zkVMVendor) -> Self {
        choose|id: ProgramID| id@ == value.name()
    }
}

/// A registered program: the vendor that produced it and the loaded engine,
/// ready to be invoked. An entry is never changed once registered; it can
/// only be replaced as a whole.
#[derive(Debug)]
#[allow(non_camel_case_types)]
pub struct zkVMInstance<E> {
    pub vendor: zkVMVendor,
    pub vm: E,
}

impl<E> zkVMInstance<E> {
    /// Pairs a loaded engine with the tag of its vendor.
    pub fn new(vendor: zkVMVendor, vm: E) -> (res: Self)
        ensures
            res == (zkVMInstance { vendor, vm }),
    {
        zkVMInstance { vendor, vm }
    }
}

impl<E: Clone> Clone for zkVMInstance<E> {
    /// A second handle on the same program: the vendor tag is kept and the
    /// engine handle is cloned.
    fn clone(&self) -> (res: Self)
        ensures
            res.vendor == self.vendor,
            cloned(self.vm, res.vm),
    {
        zkVMInstance { vendor: self.vendor, vm: self.vm.clone() }
    }
}

/// The program registry: at most one entry per identifier, and finitely
/// many entries.
#[verifier::reject_recursive_types(E)]
pub struct AppState<E> {
    programs: StringHashMap<zkVMInstance<E>>,
}

impl<E> View for AppState<E> {
    type V = Map<Seq<char>, zkVMInstance<E>>;

    closed spec fn view(&self) -> Map<Seq<char>, zkVMInstance<E>> {
        self.programs@
    }
}

impl<E> AppState<E> {
    /// A registry holds finitely many programs.
    #[verifier::type_invariant]
    spec fn finitely_many(self) -> bool {
        self.programs@.dom().finite()
    }

    /// The entry registered under `id`, if there is one.
    pub open spec fn entry(&self, id: Seq<char>) -> Option<zkVMInstance<E>> {
        if self@.contains_key(id) {
            Some(self@[id])
        } else {
            None
        }
    }

    /// A registry without entries.
    pub fn new() -> (res: Self)
        ensures
            res@ == Map::<Seq<char>, zkVMInstance<E>>::empty(),
            res@.dom().finite(),
    {
        AppState { programs: StringHashMap::new() }
    }

    /// Registers `vm` under `id`, replacing the entry that `id` had, if any.
    /// Every other identifier keeps its entry.
    pub fn register(&mut self, id: ProgramID, vendor: zkVMVendor, vm: E)
        ensures
            final(self)@ == old(self)@.insert(id@, zkVMInstance { vendor, vm }),
            old(self)@.dom().finite(),
            final(self)@.dom().finite(),
    {
        proof {
            use_type_invariant(&*self);
        }
        // The map is taken out, changed and put back, so that the registry
        // is whole at every step.
        let mut programs = StringHashMap::new();
        std::mem::swap(&mut self.programs, &mut programs);
        programs.insert(id.0, zkVMInstance::new(vendor, vm));
        assert(programs@.dom() =~= old(self)@.dom().insert(id@));
        self.programs = programs;
    }

    /// The entry registered under `id`, or `None` where `id` was never
    /// registered or has been removed.
    pub fn lookup(&self, id: &ProgramID) -> (res: Option<&zkVMInstance<E>>)
        ensures
            match res {
                Some(found) => self.entry(id@) == Some(*found),
                None => self.entry(id@).is_none(),
            },
    {
        self.programs.get(id.0.as_str())
    }

    /// Removes the entry of `id`; a registry without such an entry stays as it is.
    pub fn remove(&mut self, id: &ProgramID)
        ensures
            final(self)@ == old(self)@.remove(id@),
            old(self)@.dom().finite(),
            final(self)@.dom().finite(),
    {
        proof {
            use_type_invariant(&*self);
        }
        let mut programs = StringHashMap::new();
        std::mem::swap(&mut self.programs, &mut programs);
        programs.remove(id.0.as_str());
        assert(programs@.dom() =~= old(self)@.dom().remove(id@));
        self.programs = programs;
    }

    /// Whether a program is registered under `id`.
    pub fn contains_key(&self, id: &ProgramID) -> (res: bool)
        ensures
            res == self@.contains_key(id@),
    {
        self.programs.contains_key(id.0.as_str())
    }

    /// The number of registered programs.
    pub fn len(&self) -> (res: usize)
        ensures
            res == self@.len(),
            self@.dom().finite(),
    {
        proof {
            use_type_invariant(self);
        }
        self.programs.len()
    }

    /// Whether no program is registered.
    pub fn is_empty(&self) -> (res: bool)
        ensures
            res == self@.is_empty(),
    {
        self.programs.is_empty()
    }
}

/// The registry a gateway starts with: the built-in SP1 program, registered
/// under the identifier of its vendor.
pub fn init_state<E>(sp1_zkvm: E) -> (res: AppState<E>)
    ensures
        res@ == Map::<Seq<char>, zkVMInstance<E>>::empty().insert(
            zkVMVendor::SP1.name(),
            zkVMInstance { vendor: zkVMVendor::SP1, vm: sp1_zkvm },
        ),
{
    let mut state = AppState::new();
    let program_id = ProgramID::from(zkVMVendor::SP1);
    state.register(program_id, zkVMVendor::SP1, sp1_zkvm);
    state
}

/// Registering into a finite registry adds one to its length where the
/// identifier is new, and keeps the length where an entry is replaced.
pub proof fn lemma_len_after_register<E>(
    before: AppState<E>,
    after: AppState<E>,
    id: Seq<char>,
    instance: zkVMInstance<E>,
)
    requires
        before@.dom().finite(),
        after@ == before@.insert(id, instance),
    ensures
        after@.dom().finite(),
        after@.len() == if before@.contains_key(id) {
            before@.len()
        } else {
            before@.len() + 1
        },
{
    assert(after@.dom() =~= before@.dom().insert(id));
}

/// Removing from a finite registry takes one from its length where the
/// identifier was registered, and keeps the length where it was not.
pub proof fn lemma_len_after_remove<E>(before: AppState<E>, after: AppState<E>, id: Seq<char>)
    requires
        before@.dom().finite(),
        after@ == before@.remove(id),
    ensures
        after@.dom().finite(),
        after@.len() == if before@.contains_key(id) {
            before@.len() - 1
        } else {
            before@.len() as int
        },
{
    assert(after@.dom() =~= before@.dom().remove(id));
}

/// A lookup right after a registration finds exactly the registered entry,
/// and every other identifier is found as before.
pub proof fn lemma_lookup_after_register<E>(
    before: AppState<E>,
    after: AppState<E>,
    id: Seq<char>,
    instance: zkVMInstance<E>,
)
    requires
        after@ == before@.insert(id, instance),
    ensures
        after.entry(id) == Some(instance),
        forall|other: Seq<char>| other != id ==> after.entry(other) == before.entry(other),
{
}

/// A lookup right after a removal finds nothing under the removed
/// identifier, and every other identifier is found as before.
pub proof fn lemma_lookup_after_remove<E>(before: AppState<E>, after: AppState<E>, id: Seq<char>)
    requires
        after@ == before@.remove(id),
    ensures
        after.entry(id).is_none(),
        forall|other: Seq<char>| other != id ==> after.entry(other) == before.entry(other),
{
}

/// A registry without entries finds nothing under any identifier.
pub proof fn lemma_lookup_in_empty<E>(state: AppState<E>, id: Seq<char>)
    requires
        state@ == Map::<Seq<char>, zkVMInstance<E>>::empty(),
    ensures
        state.entry(id).is_none(),
{
}

} // verus!
