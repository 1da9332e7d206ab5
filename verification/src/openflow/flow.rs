//! OpenFlow flow entries and modifications.
use vstd::prelude::*;
use crate::openflow::action::ActionModel;
use crate::openflow::action_list::ActionList;
use crate::openflow::match_fields::{empty_match, Match};

verus! {

/// Table id that names every table in a delete command.
pub const ALL_TABLES: u8 = 0xff;

/// A flow entry.
#[derive(Debug, Clone)]
pub struct Flow {
    /// Table ID
    pub table_id: u8,
    /// Priority (higher = more specific)
    pub priority: u16,
    /// Cookie (opaque identifier)
    pub cookie: u64,
    /// Match fields
    pub match_fields: Match,
    /// Actions to apply
    pub actions: ActionList,
    /// Idle timeout (seconds, 0 = no timeout)
    pub idle_timeout: u16,
    /// Hard timeout (seconds, 0 = no timeout)
    pub hard_timeout: u16,
    /// Packet count
    pub packet_count: u64,
    /// Byte count
    pub byte_count: u64,
}

/// Flow modification command.
#[derive(Debug, Clone, Copy, PartialEq, Eq, Structural)]
pub enum FlowModCommand {
    /// Add a new flow
    Add,
    /// Modify matching flows
    Modify,
    /// Modify matching flows (strict match)
    ModifyStrict,
    /// Delete matching flows
    Delete,
    /// Delete matching flows (strict match)
    DeleteStrict,
}

/// The wire value of each flow modification command.
pub open spec fn command_value(c: FlowModCommand) -> u8 {
    match c {
        FlowModCommand::Add => 0,
        FlowModCommand::Modify => 1,
        FlowModCommand::ModifyStrict => 2,
        FlowModCommand::Delete => 3,
        FlowModCommand::DeleteStrict => 4,
    }
}

impl FlowModCommand {
    /// The wire value of this command.
    pub fn wire_value(self) -> (r: u8)
        ensures
            r == command_value(self),
    {
        match self {
            FlowModCommand::Add => 0,
            FlowModCommand::Modify => 1,
            FlowModCommand::ModifyStrict => 2,
            FlowModCommand::Delete => 3,
            FlowModCommand::DeleteStrict => 4,
        }
    }
}

/// Flow modification flags.
#[derive(Debug, Clone, Copy, PartialEq, Eq, Structural)]
pub struct FlowModFlags {
    /// Send flow removed message
    pub send_flow_rem: bool,
    /// Check for overlapping entries
    pub check_overlap: bool,
    /// Reset flow counters
    pub reset_counts: bool,
    /// Don't keep track of packet count
    pub no_pkt_counts: bool,
    /// Don't keep track of byte count
    pub no_byte_counts: bool,
}

/// The flags with none set.
pub open spec fn no_flags() -> FlowModFlags {
    FlowModFlags {
        send_flow_rem: false,
        check_overlap: false,
        reset_counts: false,
        no_pkt_counts: false,
        no_byte_counts: false,
    }
}

impl Default for FlowModFlags {
    fn default() -> (r: Self)
        ensures
            r == no_flags(),
    {
        FlowModFlags {
            send_flow_rem: false,
            check_overlap: false,
            reset_counts: false,
            no_pkt_counts: false,
            no_byte_counts: false,
        }
    }
}

/// A flow modification request.
#[derive(Debug, Clone)]
pub struct FlowMod {
    /// Command (add, modify, delete)
    pub command: FlowModCommand,
    /// Table ID (0xff for all tables on delete)
    pub table_id: u8,
    /// Priority
    pub priority: u16,
    /// Cookie
    pub cookie: u64,
    /// Cookie mask (for modify/delete)
    pub cookie_mask: u64,
    /// Match fields
    pub match_fields: Match,
    /// Actions
    pub actions: ActionList,
    /// Idle timeout
    pub idle_timeout: u16,
    /// Hard timeout
    pub hard_timeout: u16,
    /// Flags
    pub flags: FlowModFlags,
    /// Output port (for delete commands)
    pub out_port: Option<u32>,
    /// Output group (for delete commands)
    pub out_group: Option<u32>,
    /// Buffer ID (for packet-out)
    pub buffer_id: Option<u32>,
}

/// The abstract content of a flow modification: its fields, with the
/// actions taken by their view.
pub struct FlowModModel {
    pub command: FlowModCommand,
    pub table_id: u8,
    pub priority: u16,
    pub cookie: u64,
    pub cookie_mask: u64,
    pub match_fields: Match,
    pub actions: Seq<ActionModel>,
    pub idle_timeout: u16,
    pub hard_timeout: u16,
    pub flags: FlowModFlags,
    pub out_port: Option<u32>,
    pub out_group: Option<u32>,
    pub buffer_id: Option<u32>,
}

impl View for FlowMod {
    type V = FlowModModel;

    open spec fn view(&self) -> FlowModModel {
        FlowModModel {
            command: self.command,
            table_id: self.table_id,
            priority: self.priority,
            cookie: self.cookie,
            cookie_mask: self.cookie_mask,
            match_fields: self.match_fields,
            actions: self.actions@,
            idle_timeout: self.idle_timeout,
            hard_timeout: self.hard_timeout,
            flags: self.flags,
            out_port: self.out_port,
            out_group: self.out_group,
            buffer_id: self.buffer_id,
        }
    }
}

/// A new request with the given command and table: everything else zero,
/// empty or unset.
pub open spec fn fresh_flow_mod(command: FlowModCommand, table_id: u8) -> FlowModModel {
    FlowModModel {
        command,
        table_id,
        priority: 0,
        cookie: 0,
        cookie_mask: 0,
        match_fields: empty_match(),
        actions: Seq::empty(),
        idle_timeout: 0,
        hard_timeout: 0,
        flags: no_flags(),
        out_port: None,
        out_group: None,
        buffer_id: None,
    }
}

impl FlowMod {
    /// Create a new flow add command, on table 0.
    pub fn add() -> (r: Self)
        ensures
            r@ == fresh_flow_mod(FlowModCommand::Add, 0),
    {
        FlowMod {
            command: FlowModCommand::Add,
            table_id: 0,
            priority: 0,
            cookie: 0,
            cookie_mask: 0,
            match_fields: Match::new(),
            actions: ActionList::new(),
            idle_timeout: 0,
            hard_timeout: 0,
            flags: FlowModFlags::default(),
            out_port: None,
            out_group: None,
            buffer_id: None,
        }
    }

    /// Create a new flow delete command, on all tables.
    pub fn delete() -> (r: Self)
        ensures
            r@ == fresh_flow_mod(FlowModCommand::Delete, ALL_TABLES),
    {
        FlowMod {
            command: FlowModCommand::Delete,
            table_id: ALL_TABLES,
            priority: 0,
            cookie: 0,
            cookie_mask: 0,
            match_fields: Match::new(),
            actions: ActionList::new(),
            idle_timeout: 0,
            hard_timeout: 0,
            flags: FlowModFlags::default(),
            out_port: None,
            out_group: None,
            buffer_id: None,
        }
    }

    /// Set the table ID.
    pub fn table(self, id: u8) -> (r: Self)
        ensures
            r@ == (FlowModModel { table_id: id, ..self@ }),
    {
        let mut s = self;
        s.table_id = id;
        s
    }

    /// Set the priority.
    pub fn priority(self, priority: u16) -> (r: Self)
        ensures
            r@ == (FlowModModel { priority: priority, ..self@ }),
    {
        let mut s = self;
        s.priority = priority;
        s
    }

    /// Set the cookie.
    pub fn cookie(self, cookie: u64) -> (r: Self)
        ensures
            r@ == (FlowModModel { cookie: cookie, ..self@ }),
    {
        let mut s = self;
        s.cookie = cookie;
        s
    }

    /// Set the match fields.
    pub fn match_fields(self, m: Match) -> (r: Self)
        ensures
            r@ == (FlowModModel { match_fields: m, ..self@ }),
    {
        let mut s = self;
        s.match_fields = m;
        s
    }

    /// Set the actions.
    pub fn actions(self, actions: ActionList) -> (r: Self)
        ensures
            r@ == (FlowModModel { actions: actions@, ..self@ }),
    {
        let mut s = self;
        s.actions = actions;
        s
    }

    /// Set the idle timeout.
    pub fn idle_timeout(self, timeout: u16) -> (r: Self)
        ensures
            r@ == (FlowModModel { idle_timeout: timeout, ..self@ }),
    {
        let mut s = self;
        s.idle_timeout = timeout;
        s
    }

    /// Set the hard timeout.
    pub fn hard_timeout(self, timeout: u16) -> (r: Self)
        ensures
            r@ == (FlowModModel { hard_timeout: timeout, ..self@ }),
    {
        let mut s = self;
        s.hard_timeout = timeout;
        s
    }
}

} // verus!
