//! Dispatching decoded game commands to the exporter, and the live events
//! that result.
use vstd::prelude::*;

use crate::database::Database;
use crate::exporter::{empty_state, spec_export, spec_is_finishable, ExporterState, OptimizerExporter};
use crate::gacha::{banners_classifiable, gacha_evaluable, spec_handle_gacha, spec_handle_gacha_info};
use crate::handlers::{
    characters_convertible, multipaths_convertible, spec_handle_characters, spec_handle_inventory,
    spec_handle_login, spec_handle_token, spec_player_sync, spec_set_avatar_enhanced,
    sync_convertible,
};
use crate::models::{views, OptimizerEvent, OptimizerEventV};
use crate::proto::GameCommand;
use crate::store::relics_convertible;

verus! {

/// Handling `cmd` cannot fail on the given state.
pub open spec fn spec_command_ok(db: &Database, st: ExporterState, cmd: GameCommand) -> bool {
    match cmd {
        GameCommand::GetBag(Some(b)) => relics_convertible(db, b.relic_list@),
        GameCommand::GetAvatarData(Some(d)) => characters_convertible(db, d.avatar_list@)
            && multipaths_convertible(db, d.multi_path_avatar_info_list@),
        GameCommand::GetGachaInfo(Some(g)) => banners_classifiable(g.gacha_info_list@),
        GameCommand::DoGacha(Some(g)) => gacha_evaluable(st, db, g),
        GameCommand::PlayerSync(Some(s)) => sync_convertible(db, s),
        _ => true,
    }
}

/// What a command's handler does, and the events it would report. A token
/// reply starts over from an empty state (recording the account id if the
/// reply decoded); commands that did not decode, and other commands, change
/// nothing.
pub open spec fn spec_handle_command(db: &Database, st: ExporterState, cmd: GameCommand) -> (
    ExporterState,
    Seq<OptimizerEventV>,
) {
    match cmd {
        GameCommand::PlayerGetToken(t) => (
            match t {
                Some(t) => spec_handle_token(empty_state(), t),
                None => empty_state(),
            },
            Seq::empty(),
        ),
        GameCommand::PlayerLogin(Some(l)) => (spec_handle_login(st, l), Seq::empty()),
        GameCommand::GetBag(Some(b)) => (spec_handle_inventory(db, st, b), Seq::empty()),
        GameCommand::GetAvatarData(Some(d)) => (spec_handle_characters(db, st, d), Seq::empty()),
        GameCommand::SetAvatarEnhancedId(Some(r)) => {
            let (s, e) = spec_set_avatar_enhanced(st, r);
            (s, seq![e])
        },
        GameCommand::GetGachaInfo(Some(g)) => (spec_handle_gacha_info(db, st, g), Seq::empty()),
        GameCommand::DoGacha(Some(g)) => (
            st,
            match spec_handle_gacha(st, db, g) {
                Some(x) => seq![OptimizerEventV::GachaResult(x)],
                None => Seq::empty(),
            },
        ),
        GameCommand::PlayerSync(Some(s)) => spec_player_sync(db, st, s),
        _ => (st, Seq::empty()),
    }
}

/// Reading a command: the handler runs; its events are passed on only once
/// initialization has finished. When the state first becomes finishable,
/// initialization finishes and an initial scan with the full export follows.
pub open spec fn spec_read_command(db: &Database, st: ExporterState, cmd: GameCommand) -> (
    ExporterState,
    Seq<OptimizerEventV>,
) {
    let (st1, evs) = spec_handle_command(db, st, cmd);
    let emitted = if st1.initialized {
        evs
    } else {
        Seq::empty()
    };
    if !st1.initialized && spec_is_finishable(st1) {
        (
            ExporterState { initialized: true, ..st1 },
            emitted.push(OptimizerEventV::InitialScan(spec_export(st1).unwrap())),
        )
    } else {
        (st1, emitted)
    }
}

impl OptimizerExporter {
    fn emit_event(&self, events: &mut Vec<OptimizerEvent>, event: OptimizerEvent)
        ensures
            views(final(events)@) == if self.initialized {
                views(old(events)@).push(event@)
            } else {
                views(old(events)@)
            },
    {
        if self.initialized {
            let ghost before = events@;
            events.push(event);
            assert(views(events@) =~= views(before).push(event@));
        }
    }

    /// Reads one command: updates the state and returns the live events to
    /// pass on to subscribers.
    pub fn read_command(&mut self, command: GameCommand) -> (r: Vec<OptimizerEvent>)
        requires
            old(self).wf(),
            spec_command_ok(old(self).database, old(self)@, command),
        ensures
            final(self)@ == spec_read_command(old(self).database, old(self)@, command).0,
            views(r@) == spec_read_command(old(self).database, old(self)@, command).1,
            final(self)@.initialized == ((old(self)@.initialized && !(command is PlayerGetToken))
                || spec_is_finishable(final(self)@)),
            final(self).database == old(self).database,
            final(self).wf(),
    {
        proof {
            crate::laws::law_initialized_exactly_when(old(self).database, old(self)@, command);
        }
        let ghost db = self.database;
        let ghost st0 = self@;
        let mut events: Vec<OptimizerEvent> = Vec::new();
        let ghost evs: Seq<OptimizerEventV> = Seq::empty();
        match command {
            GameCommand::PlayerGetToken(token) => {
                self.reset();
                match token {
                    Some(t) => self.handle_token(t),
                    None => {},
                }
            },
            GameCommand::PlayerLogin(Some(login)) => self.handle_login(login),
            GameCommand::GetBag(Some(bag)) => self.handle_inventory(bag),
            GameCommand::GetAvatarData(Some(data)) => self.handle_characters(data),
            GameCommand::SetAvatarEnhancedId(Some(rsp)) => {
                let event = self.handle_set_avatar_enhanced(rsp);
                proof {
                    evs = seq![event@];
                }
                self.emit_event(&mut events, event);
                assert(views(events@) =~= if self.initialized { evs } else { Seq::empty() });
            },
            GameCommand::GetGachaInfo(Some(info)) => self.handle_gacha_info(info),
            GameCommand::DoGacha(Some(gacha)) => {
                match self.handle_gacha(gacha) {
                    Some(result) => {
                        let event = OptimizerEvent::GachaResult(result);
                        proof {
                            evs = seq![event@];
                        }
                        self.emit_event(&mut events, event);
                        assert(views(events@) =~= if self.initialized { evs } else { Seq::empty() });
                    },
                    None => {},
                }
            },
            GameCommand::PlayerSync(Some(sync)) => {
                let produced = self.handle_player_sync(sync);
                proof {
                    evs = views(produced@);
                }
                if self.initialized {
                    events = produced;
                }
            },
            _ => {},
        }
        proof {
            let (st1, e1) = spec_handle_command(db, st0, command);
            assert(self@ == st1);
            assert(evs == e1);
            assert(views(events@) =~= if st1.initialized { e1 } else { Seq::empty() });
        }
        if !self.initialized && self.is_finishable() {
            self.initialized = true;
            let ghost before = events@;
            match self.export() {
                Some(export) => {
                    events.push(OptimizerEvent::InitialScan(export));
                    assert(views(events@) =~= views(before).push(events@.last()@));
                },
                None => {},
            }
        }
        events
    }
}

impl OptimizerExporter {
    /// The event a new subscriber starts with: the initial scan with the
    /// full export once initialization has finished, nothing before.
    pub fn initial_event(&self) -> (r: Option<OptimizerEvent>)
        requires
            self.wf(),
        ensures
            match r {
                Some(e) => self@.initialized && e@ == OptimizerEventV::InitialScan(spec_export(self@).unwrap()),
                None => !self@.initialized,
            },
    {
        if self.is_initialized() {
            match self.export() {
                Some(e) => Some(OptimizerEvent::InitialScan(e)),
                None => None,
            }
        } else {
            None
        }
    }
}

} // verus!
