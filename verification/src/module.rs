//! Per-module record of graph edges (incoming/outgoing connection ids),
//! issuer bookkeeping, ordering indices and optimization metadata. The node
//! only stores what other passes write; edge payloads live in a separate
//! table keyed by the same id space.

use std::collections::HashSet;
use vstd::prelude::*;

verus! {

use crate::vec_map::VecMap;

/// Identifier of a directed connection (edge) in the graph's edge table.
pub type ConnectionId = usize;

/// Identifier of a single import/require occurrence inside a module.
pub type DependencyId = usize;

/// Opaque key of a module admitted to the graph: an interned handle whose
/// internal structure the graph never interprets.
#[derive(Clone, Copy, Debug, PartialEq, Eq, Hash, PartialOrd, Ord, Structural)]
pub struct ModuleIdentifier(pub usize);

/// Handle to the export-metadata record of a module, treated as an opaque
/// collaborator value.
#[derive(Clone, Copy, Debug, PartialEq, Eq, Structural)]
pub struct ExportsInfo(pub usize);

/// Timing record of one module's build, set at most once per build.
#[derive(Clone, Copy, Debug, PartialEq, Eq, Structural)]
pub struct ModuleProfile {
    pub factory_ms: u64,
    pub building_ms: u64,
}

/// The module recorded as having first caused another module to be created.
/// The set-once transition away from `Unset` is explicit: `Absent` means the
/// issuer was decided to be nothing, `Present` names it.
#[derive(Clone, Copy, Debug, PartialEq, Eq, Structural)]
pub enum ModuleIssuer {
    Unset,
    Absent,
    Present(ModuleIdentifier),
}

impl ModuleIssuer {
    /// The issuer value an optional identifier decides: never `Unset`.
    pub open spec fn spec_from_identifier(issuer: Option<ModuleIdentifier>) -> ModuleIssuer {
        match issuer {
            Option::Some(m) => ModuleIssuer::Present(m),
            Option::None => ModuleIssuer::Absent,
        }
    }

    pub fn from_identifier(issuer: Option<ModuleIdentifier>) -> (r: Self)
        ensures
            r == Self::spec_from_identifier(issuer),
    {
        match issuer {
            Some(m) => ModuleIssuer::Present(m),
            None => ModuleIssuer::Absent,
        }
    }
}

/// Collaborator table that assigns display ids to modules during a later
/// build phase; the node resolves its display id through it.
pub struct ChunkGraph {
    module_ids: VecMap<String>,
}

impl ChunkGraph {
    /// The display id assigned to `module`, if one has been assigned.
    pub closed spec fn spec_module_id(&self, module: ModuleIdentifier) -> Option<Seq<char>> {
        match self.module_ids.spec_get(module.0 as int) {
            Option::Some(s) => Option::Some(s@),
            Option::None => Option::None,
        }
    }

    pub fn new() -> (r: Self)
        ensures
            forall|m: ModuleIdentifier| r.spec_module_id(m) is None,
    {
        Self { module_ids: VecMap::default() }
    }

    pub fn set_module_id(&mut self, module: ModuleIdentifier, id: String)
        ensures
            final(self).spec_module_id(module) == Option::Some(id@),
            forall|m: ModuleIdentifier|
                m.0 != module.0 ==> final(self).spec_module_id(m) == old(self).spec_module_id(m),
    {
        let ghost m0 = self.module_ids@;
        self.module_ids.insert(module.0, id);
        proof {
            assert forall|m: ModuleIdentifier| m.0 != module.0 implies self.spec_module_id(m)
                == old(self).spec_module_id(m) by {
                VecMap::<String>::lemma_spec_insert_get(m0, module.0 as int, id, m.0 as int);
            }
            VecMap::<String>::lemma_spec_insert_get(m0, module.0 as int, id, module.0 as int);
        }
    }

    pub fn get_module_id(&self, module: ModuleIdentifier) -> (r: Option<&String>)
        ensures
            match r {
                Some(s) => self.spec_module_id(module) == Option::Some(s@),
                None => self.spec_module_id(module) is None,
            },
    {
        self.module_ids.try_get(module.0)
    }
}

/// One graph node per module: sets of touching edge ids, issuer, ordered
/// dependency list, traversal indices and optimization bookkeeping.
#[derive(Debug)]
pub struct ModuleGraphModule {
    pub outgoing_connections: HashSet<ConnectionId>,
    pub incoming_connections: HashSet<ConnectionId>,
    pub issuer: ModuleIssuer,
    pub module_identifier: ModuleIdentifier,
    /// All dependency ids of the module (including those of its nested
    /// blocks), in creation order; the order is significant downstream.
    pub all_dependencies: Vec<DependencyId>,
    pub pre_order_index: Option<u32>,
    pub post_order_index: Option<u32>,
    pub exports: ExportsInfo,
    pub profile: Option<Box<ModuleProfile>>,
    pub is_async: bool,
    pub depth: Option<usize>,
    pub optimization_bailout: Vec<String>,
}

impl ModuleGraphModule {
    pub open spec fn spec_incoming(&self) -> Set<ConnectionId> {
        self.incoming_connections@
    }

    pub open spec fn spec_outgoing(&self) -> Set<ConnectionId> {
        self.outgoing_connections@
    }

    pub open spec fn spec_issuer(&self) -> ModuleIssuer {
        self.issuer
    }

    /// Everything except the two connection sets, the issuer and the profile
    /// is equal between `a` and `b`.
    pub open spec fn same_metadata(a: &Self, b: &Self) -> bool {
        &&& a.module_identifier == b.module_identifier
        &&& a.all_dependencies == b.all_dependencies
        &&& a.pre_order_index == b.pre_order_index
        &&& a.post_order_index == b.post_order_index
        &&& a.exports == b.exports
        &&& a.is_async == b.is_async
        &&& a.depth == b.depth
        &&& a.optimization_bailout == b.optimization_bailout
    }

    /// The issuer and profile are equal between `a` and `b`.
    pub open spec fn same_issuer_profile(a: &Self, b: &Self) -> bool {
        &&& a.spec_issuer() == b.spec_issuer()
        &&& a.profile == b.profile
    }

    /// The two connection sets are equal between `a` and `b`.
    pub open spec fn same_connections(a: &Self, b: &Self) -> bool {
        &&& a.spec_incoming() == b.spec_incoming()
        &&& a.spec_outgoing() == b.spec_outgoing()
    }

    pub fn new(module_identifier: ModuleIdentifier, exports_info: ExportsInfo) -> (r: Self)
        ensures
            r.spec_outgoing() == Set::<ConnectionId>::empty(),
            r.spec_incoming() == Set::<ConnectionId>::empty(),
            r.spec_issuer() == ModuleIssuer::Unset,
            r.module_identifier == module_identifier,
            r.all_dependencies@ == Seq::<DependencyId>::empty(),
            r.pre_order_index is None,
            r.post_order_index is None,
            r.exports == exports_info,
            r.profile is None,
            !r.is_async,
            r.depth is None,
            r.optimization_bailout@ == Seq::<String>::empty(),
    {
        let r = Self {
            outgoing_connections: HashSet::new(),
            incoming_connections: HashSet::new(),
            issuer: ModuleIssuer::Unset,
            module_identifier,
            all_dependencies: Vec::new(),
            pre_order_index: None,
            post_order_index: None,
            exports: exports_info,
            profile: None,
            is_async: false,
            depth: None,
            optimization_bailout: Vec::new(),
        };
        proof {
            assert(r.all_dependencies@ =~= Seq::<DependencyId>::empty());
            assert(r.optimization_bailout@ =~= Seq::<String>::empty());
        }
        r
    }

    /// Resolves the module's externally-assigned display id; calling this
    /// before the collaborator table has assigned one is a contract
    /// violation.
    pub fn id<'a>(&self, chunk_graph: &'a ChunkGraph) -> (r: &'a str)
        requires
            chunk_graph.spec_module_id(self.module_identifier) is Some,
        ensures
            chunk_graph.spec_module_id(self.module_identifier) == Option::Some(r@),
    {
        match chunk_graph.get_module_id(self.module_identifier) {
            Some(s) => s.as_str(),
            None => vstd::pervasive::unreached(),
        }
    }

    pub fn add_incoming_connection(&mut self, connection_id: ConnectionId)
        ensures
            final(self).spec_incoming() == old(self).spec_incoming().insert(connection_id),
            final(self).spec_outgoing() == old(self).spec_outgoing(),
            Self::same_issuer_profile(old(self), final(self)),
            Self::same_metadata(old(self), final(self)),
    {
        self.incoming_connections.insert(connection_id);
    }

    pub fn remove_incoming_connection(&mut self, connection_id: &ConnectionId)
        ensures
            final(self).spec_incoming() == old(self).spec_incoming().remove(*connection_id),
            final(self).spec_outgoing() == old(self).spec_outgoing(),
            Self::same_issuer_profile(old(self), final(self)),
            Self::same_metadata(old(self), final(self)),
    {
        self.incoming_connections.remove(connection_id);
    }

    pub fn add_outgoing_connection(&mut self, connection_id: ConnectionId)
        ensures
            final(self).spec_outgoing() == old(self).spec_outgoing().insert(connection_id),
            final(self).spec_incoming() == old(self).spec_incoming(),
            Self::same_issuer_profile(old(self), final(self)),
            Self::same_metadata(old(self), final(self)),
    {
        self.outgoing_connections.insert(connection_id);
    }

    pub fn remove_outgoing_connection(&mut self, connection_id: &ConnectionId)
        ensures
            final(self).spec_outgoing() == old(self).spec_outgoing().remove(*connection_id),
            final(self).spec_incoming() == old(self).spec_incoming(),
            Self::same_issuer_profile(old(self), final(self)),
            Self::same_metadata(old(self), final(self)),
    {
        self.outgoing_connections.remove(connection_id);
    }

    /// Unordered view of the incoming edge set; callers needing determinism
    /// must sort by a stable key themselves.
    pub fn incoming_connections(&self) -> (r: &HashSet<ConnectionId>)
        ensures
            r@ == self.spec_incoming(),
    {
        &self.incoming_connections
    }

    /// Unordered view of the outgoing edge set; callers needing determinism
    /// must sort by a stable key themselves.
    pub fn outgoing_connections(&self) -> (r: &HashSet<ConnectionId>)
        ensures
            r@ == self.spec_outgoing(),
    {
        &self.outgoing_connections
    }

    pub fn get_incoming_connections_unordered(&self) -> (r: &HashSet<ConnectionId>)
        ensures
            r@ == self.spec_incoming(),
    {
        &self.incoming_connections
    }

    pub fn get_outgoing_connections_unordered(&self) -> (r: &HashSet<ConnectionId>)
        ensures
            r@ == self.spec_outgoing(),
    {
        &self.outgoing_connections
    }

    /// Last-write-wins single-slot storage of the build profile.
    pub fn set_profile(&mut self, profile: Box<ModuleProfile>)
        ensures
            final(self).profile == Option::Some(profile),
            Self::same_connections(old(self), final(self)),
            final(self).spec_issuer() == old(self).spec_issuer(),
            Self::same_metadata(old(self), final(self)),
    {
        self.profile = Some(profile);
    }

    pub fn get_profile(&self) -> (r: Option<&ModuleProfile>)
        ensures
            match (r, self.profile) {
                (Some(p), Option::Some(b)) => *p == *b,
                (None, Option::None) => true,
                _ => false,
            },
    {
        match &self.profile {
            Some(b) => Some(&**b),
            None => None,
        }
    }

    /// What one set-if-unset step leaves in the issuer slot: the first call
    /// decides it, every later call is a no-op whatever its candidate.
    pub open spec fn spec_set_issuer_if_unset(
        cur: ModuleIssuer,
        issuer: Option<ModuleIdentifier>,
    ) -> ModuleIssuer {
        if cur is Unset {
            ModuleIssuer::spec_from_identifier(issuer)
        } else {
            cur
        }
    }

    pub fn set_issuer_if_unset(&mut self, issuer: Option<ModuleIdentifier>)
        ensures
            final(self).spec_issuer() == Self::spec_set_issuer_if_unset(
                old(self).spec_issuer(),
                issuer,
            ),
            final(self).profile == old(self).profile,
            Self::same_connections(old(self), final(self)),
            Self::same_metadata(old(self), final(self)),
    {
        if matches!(self.issuer, ModuleIssuer::Unset) {
            self.issuer = ModuleIssuer::from_identifier(issuer);
        }
    }

    /// Unconditional overwrite, for passes that have explicitly taken over
    /// issuer computation.
    pub fn set_issuer(&mut self, issuer: ModuleIssuer)
        ensures
            final(self).spec_issuer() == issuer,
            final(self).profile == old(self).profile,
            Self::same_connections(old(self), final(self)),
            Self::same_metadata(old(self), final(self)),
    {
        self.issuer = issuer;
    }

    pub fn get_issuer(&self) -> (r: &ModuleIssuer)
        ensures
            *r == self.spec_issuer(),
    {
        &self.issuer
    }

    /// Append-only list of reasons a later optimization pass could not apply.
    pub fn optimization_bailout_mut(&mut self) -> (r: &mut Vec<String>)
        ensures
            *r == old(self).optimization_bailout,
            final(self).optimization_bailout == *final(r),
            final(self).spec_issuer() == old(self).spec_issuer(),
            final(self).profile == old(self).profile,
            Self::same_connections(old(self), final(self)),
            final(self).module_identifier == old(self).module_identifier,
            final(self).all_dependencies == old(self).all_dependencies,
            final(self).pre_order_index == old(self).pre_order_index,
            final(self).post_order_index == old(self).post_order_index,
            final(self).exports == old(self).exports,
            final(self).is_async == old(self).is_async,
            final(self).depth == old(self).depth,
    {
        &mut self.optimization_bailout
    }
}

/// Law: `set_issuer_if_unset` is idempotent after the first call. Whatever
/// the first candidate decided, a second call with any candidate leaves the
/// stored issuer unchanged.
pub proof fn lemma_set_issuer_if_unset_idempotent(
    cur: ModuleIssuer,
    first: Option<ModuleIdentifier>,
    second: Option<ModuleIdentifier>,
)
    ensures
        ModuleGraphModule::spec_set_issuer_if_unset(
            ModuleGraphModule::spec_set_issuer_if_unset(cur, first),
            second,
        ) == ModuleGraphModule::spec_set_issuer_if_unset(cur, first),
{
}

/// Law: adding and removing one connection id interact as on the abstract
/// set: a remove right after an add cancels the add (leaving any prior
/// membership removed as well), and removing a non-member before an add
/// leaves exactly the state of a single clean add.
pub proof fn lemma_connection_add_remove(s: Set<ConnectionId>, c: ConnectionId)
    ensures
        s.insert(c).remove(c) == s.remove(c),
        s.remove(c).insert(c) == s.insert(c),
        !s.contains(c) ==> s.insert(c).remove(c) == s,
        s.contains(c) ==> s.remove(c).insert(c) == s,
{
    assert(s.insert(c).remove(c) =~= s.remove(c));
    assert(s.remove(c).insert(c) =~= s.insert(c));
    if !s.contains(c) {
        assert(s.insert(c).remove(c) =~= s);
    }
    if s.contains(c) {
        assert(s.remove(c).insert(c) =~= s);
    }
}

} // verus!
