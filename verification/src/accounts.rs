//! Several accounts at once: one exporter per connection, and the account
//! each connection belongs to.
use std::collections::HashMap;

use vstd::prelude::*;

use crate::command::{spec_command_ok, spec_read_command};
use crate::database::Database;
use crate::exporter::{empty_state, spec_export, ExporterState, OptimizerExporter};
use crate::models::{views, Export, OptimizerEvent};
use crate::proto::GameCommand;
use crate::seqs::{filter_map, lemma_filter_map_step};

verus! {

/// The states of the exporters of a map of them.
pub open spec fn exporter_states(m: Map<u32, OptimizerExporter>) -> Map<u32, ExporterState> {
    Map::new(|k: u32| m.contains_key(k), |k: u32| m[k]@)
}

/// The exporters of all connections seen, and the account of each.
pub struct MultiAccountManager {
    pub database: &'static Database,
    /// One exporter per connection id.
    pub exporters: HashMap<u32, OptimizerExporter>,
    /// The connection each account id was last seen on.
    pub uid_to_conv: HashMap<u32, u32>,
    /// The account ids in the order they were first seen.
    pub account_order: Vec<u32>,
    /// The decryption keys every connection starts with.
    pub initial_keys: HashMap<u32, Vec<u8>>,
}

/// The abstract state of a [`MultiAccountManager`].
#[verifier::ext_equal]
pub struct AccountsV {
    pub exporters: Map<u32, ExporterState>,
    pub uid_to_conv: Map<u32, u32>,
    pub account_order: Seq<u32>,
}

impl View for MultiAccountManager {
    type V = AccountsV;

    open spec fn view(&self) -> AccountsV {
        AccountsV {
            exporters: exporter_states(self.exporters@),
            uid_to_conv: self.uid_to_conv@,
            account_order: self.account_order@,
        }
    }
}

/// The state of connection `conv`'s exporter; a connection without one
/// starts from an empty state.
pub open spec fn state_of(v: AccountsV, conv: u32) -> ExporterState {
    if v.exporters.contains_key(conv) {
        v.exporters[conv]
    } else {
        empty_state()
    }
}

/// The connection of account `uid` still has an exporter.
pub open spec fn account_active(v: AccountsV, uid: u32) -> bool {
    v.uid_to_conv.contains_key(uid) && v.exporters.contains_key(v.uid_to_conv[uid])
}

/// The accounts of `v` whose connection still has an exporter, in the order
/// they were first seen.
pub open spec fn active_accounts(v: AccountsV) -> Seq<u32> {
    filter_map(v.account_order, |uid: u32| if account_active(v, uid) { Some(uid) } else { None })
}

/// Registering account `uid` on connection `conv`: the account now belongs
/// to `conv`; when it belonged to another connection before, that
/// connection's exporter is dropped; a new account joins the order.
pub open spec fn spec_register_uid(v: AccountsV, conv: u32, uid: u32) -> AccountsV {
    AccountsV {
        exporters: if v.uid_to_conv.contains_key(uid) && v.uid_to_conv[uid] != conv {
            v.exporters.remove(v.uid_to_conv[uid])
        } else {
            v.exporters
        },
        uid_to_conv: v.uid_to_conv.insert(uid, conv),
        account_order: if v.uid_to_conv.contains_key(uid) {
            v.account_order
        } else {
            v.account_order.push(uid)
        },
    }
}

impl MultiAccountManager {
    /// Each exporter uses the manager's database and is well formed; the
    /// account order lists each registered account once.
    pub open spec fn wf(&self) -> bool {
        &&& forall|c: u32| #[trigger]
            self.exporters@.contains_key(c) ==> self.exporters@[c].database == self.database
                && self.exporters@[c].wf()
        &&& self.account_order@.no_duplicates()
        &&& self.account_order@.to_set() == self.uid_to_conv@.dom()
    }

    /// A manager with no connection and no account yet.
    pub fn new(database: &'static Database, initial_keys: HashMap<u32, Vec<u8>>) -> (r: MultiAccountManager)
        ensures
            r.wf(),
            r.database == database,
            r@.exporters == Map::<u32, ExporterState>::empty(),
            r@.uid_to_conv == Map::<u32, u32>::empty(),
            r@.account_order == Seq::<u32>::empty(),
            r.initial_keys@ == initial_keys@,
    {
        let r = MultiAccountManager {
            database,
            exporters: HashMap::new(),
            uid_to_conv: HashMap::new(),
            account_order: Vec::new(),
            initial_keys,
        };
        assert(exporter_states(r.exporters@) =~= Map::empty());
        assert(r.account_order@.to_set() =~= r.uid_to_conv@.dom());
        r
    }

    /// Makes sure connection `conv_id` has an exporter, creating an empty
    /// one if it has none.
    pub fn get_or_create_exporter(&mut self, conv_id: u32)
        requires
            old(self).wf(),
        ensures
            final(self).wf(),
            final(self).database == old(self).database,
            final(self).initial_keys@ == old(self).initial_keys@,
            final(self)@ == (AccountsV {
                exporters: old(self)@.exporters.insert(conv_id, state_of(old(self)@, conv_id)),
                ..old(self)@
            }),
    {
        if !self.exporters.contains_key(&conv_id) {
            let e = OptimizerExporter::new(self.database);
            self.exporters.insert(conv_id, e);
        }
        assert(self@.exporters =~= old(self)@.exporters.insert(conv_id, state_of(old(self)@, conv_id)));
    }

    /// Whether connection `conv_id` has an exporter.
    pub fn is_conv_active(&self, conv_id: u32) -> (r: bool)
        ensures
            r == self@.exporters.contains_key(conv_id),
    {
        self.exporters.contains_key(&conv_id)
    }

    /// Registers account `uid` on connection `conv_id`; returns whether the
    /// account is new. An account seen again on another connection (a
    /// reconnection) loses its old connection's exporter.
    pub fn register_uid(&mut self, conv_id: u32, uid: u32) -> (r: bool)
        requires
            old(self).wf(),
        ensures
            r == !old(self)@.uid_to_conv.contains_key(uid),
            final(self)@ == spec_register_uid(old(self)@, conv_id, uid),
            final(self).wf(),
            final(self).database == old(self).database,
            final(self).initial_keys@ == old(self).initial_keys@,
    {
        match self.uid_to_conv.get(&uid) {
            Some(old_conv) => {
                let old_conv = *old_conv;
                if old_conv != conv_id {
                    self.exporters.remove(&old_conv);
                    self.uid_to_conv.insert(uid, conv_id);
                    assert(self@.exporters =~= old(self)@.exporters.remove(old_conv));
                } else {
                    self.uid_to_conv.insert(uid, conv_id);
                }
                assert(self@.uid_to_conv.dom() =~= old(self)@.uid_to_conv.dom());
                false
            },
            None => {
                self.uid_to_conv.insert(uid, conv_id);
                let ghost before = self.account_order@;
                self.account_order.push(uid);
                proof {
                    assert(!before.contains(uid));
                    assert(self.account_order@.to_set() =~= before.to_set().insert(uid)) by {
                        assert forall|x: u32| #[trigger] self.account_order@.to_set().contains(x) implies before.to_set().insert(uid).contains(x) by {
                            let k = choose|k: int| 0 <= k < self.account_order@.len() && self.account_order@[k] == x;
                            if k < before.len() {
                                assert(before[k] == x);
                            }
                        }
                        assert forall|x: u32| before.to_set().insert(uid).contains(x) implies #[trigger] self.account_order@.to_set().contains(x) by {
                            if x == uid {
                                assert(self.account_order@[before.len() as int] == uid);
                            } else {
                                let k = choose|k: int| 0 <= k < before.len() && before[k] == x;
                                assert(self.account_order@[k] == x);
                            }
                        }
                    }
                    assert(self@.uid_to_conv.dom() =~= old(self)@.uid_to_conv.dom().insert(uid));
                    assert(self@.exporters =~= old(self)@.exporters);
                }
                true
            },
        }
    }

    /// The exporter of account `uid`, if the account is known and its
    /// connection still has one.
    pub fn get_account_exporter(&self, uid: u32) -> (r: Option<&OptimizerExporter>)
        requires
            self.wf(),
        ensures
            match r {
                Some(e) => account_active(self@, uid) && e@ == self@.exporters[self@.uid_to_conv[uid]]
                    && e.database == self.database,
                None => !account_active(self@, uid),
            },
    {
        match self.uid_to_conv.get(&uid) {
            Some(conv) => {
                let r = self.exporters.get(conv);
                proof {
                    if let Some(e) = r {
                        assert(self.exporters@.contains_key(*conv));
                    }
                }
                r
            },
            None => None,
        }
    }

    /// The accounts whose connection still has an exporter, in the order
    /// they were first seen.
    pub fn get_all_accounts(&self) -> (r: Vec<u32>)
        ensures
            r@ == active_accounts(self@),
    {
        let ghost f = |uid: u32| if account_active(self@, uid) { Some(uid) } else { None };
        let mut r: Vec<u32> = Vec::new();
        let mut i: usize = 0;
        while i < self.account_order.len()
            invariant
                i <= self.account_order@.len(),
                f == (|uid: u32| if account_active(self@, uid) { Some(uid) } else { None }),
                r@ == filter_map(self.account_order@.take(i as int), f),
            decreases self.account_order.len() - i,
        {
            let uid = self.account_order[i];
            proof {
                lemma_filter_map_step(self.account_order@, f, i as int);
            }
            match self.uid_to_conv.get(&uid) {
                Some(conv) => {
                    if self.exporters.contains_key(conv) {
                        r.push(uid);
                    }
                },
                None => {},
            }
            i = i + 1;
        }
        assert(self.account_order@.take(self.account_order@.len() as int) =~= self.account_order@);
        r
    }

    /// The export of account `uid`, or of the first account still connected
    /// when none is named; `None` when there is no such account or it has
    /// recorded nothing.
    pub fn export_for(&self, uid: Option<u32>) -> (r: Option<Export>)
        requires
            self.wf(),
        ensures
            ({
                let target = match uid {
                    Some(u) => Some(u),
                    None => if active_accounts(self@).len() > 0 {
                        Some(active_accounts(self@)[0])
                    } else {
                        None
                    },
                };
                match target {
                    Some(u) if account_active(self@, u) => match r {
                        Some(e) => spec_export(self@.exporters[self@.uid_to_conv[u]]) == Some(e@),
                        None => spec_export(self@.exporters[self@.uid_to_conv[u]]) is None,
                    },
                    _ => r is None,
                }
            }),
    {
        let target = match uid {
            Some(u) => u,
            None => {
                let accounts = self.get_all_accounts();
                if accounts.len() == 0 {
                    return None;
                }
                proof {
                    lemma_active_accounts_are_active(self@);
                    assert(account_active(self@, active_accounts(self@)[0]));
                }
                accounts[0]
            },
        };
        match self.get_account_exporter(target) {
            Some(e) => e.export(),
            None => None,
        }
    }

    /// Reads `command` into connection `conv_id`'s exporter, creating the
    /// exporter first if the connection has none; returns the exporter's
    /// live events.
    pub fn read_command(&mut self, conv_id: u32, command: GameCommand) -> (r: Vec<OptimizerEvent>)
        requires
            old(self).wf(),
            spec_command_ok(old(self).database, state_of(old(self)@, conv_id), command),
        ensures
            final(self).wf(),
            final(self).database == old(self).database,
            final(self).initial_keys@ == old(self).initial_keys@,
            final(self)@ == (AccountsV {
                exporters: old(self)@.exporters.insert(
                    conv_id,
                    spec_read_command(old(self).database, state_of(old(self)@, conv_id), command).0,
                ),
                ..old(self)@
            }),
            views(r@) == spec_read_command(old(self).database, state_of(old(self)@, conv_id), command).1,
    {
        let mut e = match self.exporters.remove(&conv_id) {
            Some(e) => e,
            None => OptimizerExporter::new(self.database),
        };
        let events = e.read_command(command);
        self.exporters.insert(conv_id, e);
        assert(self@.exporters =~= old(self)@.exporters.insert(
            conv_id,
            spec_read_command(old(self).database, state_of(old(self)@, conv_id), command).0,
        ));
        events
    }
}

proof fn lemma_active_accounts_are_active(v: AccountsV)
    ensures
        forall|k: int| 0 <= k < active_accounts(v).len() ==> account_active(v, #[trigger] active_accounts(v)[k]),
{
    let f = |uid: u32| if account_active(v, uid) { Some(uid) } else { None };
    lemma_filter_map_only_some(v.account_order, f);
}

/// Every item of a `filter_map` of `s` is what `f` maps some item of `s` to.
proof fn lemma_filter_map_only_some(s: Seq<u32>, f: spec_fn(u32) -> Option<u32>)
    ensures
        forall|k: int| 0 <= k < filter_map(s, f).len() ==> exists|i: int| 0 <= i < s.len() && f(s[i]) == Some(
            #[trigger] filter_map(s, f)[k],
        ),
    decreases s.len(),
{
    if s.len() > 0 {
        lemma_filter_map_only_some(s.drop_last(), f);
        let prev = filter_map(s.drop_last(), f);
        assert forall|k: int| 0 <= k < filter_map(s, f).len() implies exists|i: int| 0 <= i < s.len() && f(s[i])
            == Some(#[trigger] filter_map(s, f)[k]) by {
            if k < prev.len() {
                let i = choose|i: int| 0 <= i < s.drop_last().len() && f(s.drop_last()[i]) == Some(prev[k]);
                assert(s[i] == s.drop_last()[i]);
            } else {
                assert(f(s[s.len() - 1]) == Some(filter_map(s, f)[k]));
            }
        }
    }
}

/// Registering an account never touches its connection's own exporter, and
/// afterwards the account's exporter is that connection's, when it has one.
pub proof fn law_register_binds_account_to_connection(v: AccountsV, conv: u32, uid: u32)
    ensures
        state_of(spec_register_uid(v, conv, uid), conv) == state_of(v, conv),
        account_active(spec_register_uid(v, conv, uid), uid) <==> v.exporters.contains_key(conv),
        spec_register_uid(v, conv, uid).uid_to_conv[uid] == conv,
{
}

/// An account seen again on another connection loses the exporter of its
/// old connection; every other connection keeps its exporter.
pub proof fn law_reconnection_drops_old_exporter(v: AccountsV, conv: u32, uid: u32)
    requires
        v.uid_to_conv.contains_key(uid),
        v.uid_to_conv[uid] != conv,
    ensures
        !spec_register_uid(v, conv, uid).exporters.contains_key(v.uid_to_conv[uid]),
        forall|c: u32|
            c != v.uid_to_conv[uid] ==> (#[trigger] spec_register_uid(v, conv, uid).exporters.contains_key(c)
                <==> v.exporters.contains_key(c)),
        spec_register_uid(v, conv, uid).account_order == v.account_order,
{
}

/// Registering the same account on the same connection again changes
/// nothing.
pub proof fn law_register_is_idempotent(v: AccountsV, conv: u32, uid: u32)
    ensures
        spec_register_uid(spec_register_uid(v, conv, uid), conv, uid) == spec_register_uid(v, conv, uid),
{
    let v1 = spec_register_uid(v, conv, uid);
    assert(v1.uid_to_conv.insert(uid, conv) =~= v1.uid_to_conv);
    assert(spec_register_uid(v1, conv, uid) =~= v1);
}

} // verus!
