//! The connection manager: which printers have a session, whether each is
//! connected, and what is last known of it.

use vstd::prelude::*;
use vstd::string::*;
use crate::registry::SerialMap;
use crate::session::{
    spec_announcement, spec_transition, PrinterCommand, PrinterConfig, PrinterEvent, PrinterState,
    SessionInput, SessionPhase,
};

verus! {

/// What the manager knows of one printer that has a session.
#[derive(Debug, Clone)]
pub struct PrinterConnection {
    pub serial: String,
    pub connected: bool,
    pub state: Option<PrinterState>,
}

/// Why the manager refused a request.
#[derive(Debug, Clone)]
pub enum ManagerError {
    /// The serial has a session already.
    AlreadyConnected { serial: String },
    /// The serial has no session.
    NotConnected { serial: String },
    /// The stored configuration of the printer has no address.
    MissingAddress { serial: String },
    /// The stored configuration of the printer has no access code.
    MissingAccessCode { serial: String },
}

/// The sentence that tells a user of a refusal.
pub open spec fn spec_error_message(error: ManagerError) -> Seq<char> {
    match error {
        ManagerError::AlreadyConnected { serial } => "Printer "@ + serial@
            + " is already connected"@,
        ManagerError::NotConnected { serial } => "Printer "@ + serial@ + " is not connected"@,
        ManagerError::MissingAddress { serial } => "Printer has no IP address"@,
        ManagerError::MissingAccessCode { serial } => "Printer has no access code"@,
    }
}

impl ManagerError {
    /// The sentence that tells a user of the refusal.
    pub fn message(&self) -> (text: String)
        ensures
            text@ == spec_error_message(*self),
    {
        match self {
            ManagerError::AlreadyConnected { serial } => {
                let mut text = "Printer ".to_owned();
                text.append(serial.as_str());
                text.append(" is already connected");
                text
            },
            ManagerError::NotConnected { serial } => {
                let mut text = "Printer ".to_owned();
                text.append(serial.as_str());
                text.append(" is not connected");
                text
            },
            ManagerError::MissingAddress { serial } => "Printer has no IP address".to_owned(),
            ManagerError::MissingAccessCode { serial } => "Printer has no access code".to_owned(),
        }
    }
}

/// A request to tell a printer which filament a tray holds.
#[derive(Debug, Clone)]
pub struct SetSlotFilamentRequest {
    pub ams_id: i32,
    pub tray_id: i32,
    pub tray_info_idx: String,
    pub tray_type: String,
    pub tray_color: String,
    pub nozzle_temp_min: u32,
    pub nozzle_temp_max: u32,
}

/// The slot number of a tray: four trays to a unit.
pub open spec fn spec_slot_id(ams_id: i32, tray_id: i32) -> int {
    ams_id * 4 + tray_id
}

/// Whether the slot number of a tray can be computed in 32 bits.
pub open spec fn spec_slot_fits(ams_id: i32, tray_id: i32) -> bool {
    &&& i32::MIN <= ams_id * 4 <= i32::MAX
    &&& i32::MIN <= spec_slot_id(ams_id, tray_id) <= i32::MAX
}

/// Whether the slot number of a tray can be computed in 32 bits.
pub fn slot_fits(ams_id: i32, tray_id: i32) -> (fits: bool)
    ensures
        fits == spec_slot_fits(ams_id, tray_id),
{
    let unit: i64 = ams_id as i64 * 4;
    let slot: i64 = unit + tray_id as i64;
    -0x8000_0000 <= unit && unit <= 0x7fff_ffff && -0x8000_0000 <= slot && slot <= 0x7fff_ffff
}

/// The command that a request to set a tray stands for.
pub open spec fn spec_slot_command(request: SetSlotFilamentRequest) -> PrinterCommand {
    PrinterCommand::SetFilament {
        ams_id: request.ams_id,
        tray_id: request.tray_id,
        slot_id: spec_slot_id(request.ams_id, request.tray_id) as i32,
        tray_info_idx: request.tray_info_idx,
        tray_type: request.tray_type,
        tray_color: request.tray_color,
        nozzle_temp_min: request.nozzle_temp_min,
        nozzle_temp_max: request.nozzle_temp_max,
    }
}

/// The records of the manager, by serial.
pub type Records = Map<Seq<char>, PrinterConnection>;

/// The record with which a session starts: not yet connected, nothing known.
pub open spec fn spec_fresh_record(serial: String) -> PrinterConnection {
    PrinterConnection { serial, connected: false, state: None }
}

/// The records after a request to connect `serial`: a fresh record where it
/// had none, no change where it had one.
pub open spec fn spec_connect(records: Records, serial: String) -> Records {
    if records.contains_key(serial@) {
        records
    } else {
        records.insert(serial@, spec_fresh_record(serial))
    }
}

/// The records after a request to disconnect the printer named `serial`.
pub open spec fn spec_disconnect(records: Records, serial: Seq<char>) -> Records {
    records.remove(serial)
}

/// The record after an event of its session.
pub open spec fn spec_record_after(record: PrinterConnection, event: PrinterEvent)
    -> PrinterConnection {
    match event {
        PrinterEvent::Connected { serial } => PrinterConnection { connected: true, ..record },
        PrinterEvent::Disconnected { serial } => PrinterConnection { connected: false, ..record },
        PrinterEvent::StateUpdate { serial, state } => PrinterConnection {
            state: Some(state),
            ..record
        },
        PrinterEvent::Error { serial, message } => record,
    }
}

/// The serial that an event speaks of.
pub open spec fn spec_event_serial(event: PrinterEvent) -> Seq<char> {
    match event {
        PrinterEvent::Connected { serial } => serial@,
        PrinterEvent::Disconnected { serial } => serial@,
        PrinterEvent::StateUpdate { serial, state } => serial@,
        PrinterEvent::Error { serial, message } => serial@,
    }
}

/// The records after an event: the record of the event's serial changes as
/// the event says, every other record stays, and an event of a printer
/// without a record changes nothing.
pub open spec fn spec_handle_event(records: Records, event: PrinterEvent) -> Records {
    let serial = spec_event_serial(event);
    if records.contains_key(serial) {
        records.insert(serial, spec_record_after(records[serial], event))
    } else {
        records
    }
}

/// Whether the records show the printer named `serial` as connected.
pub open spec fn spec_is_connected(records: Records, serial: Seq<char>) -> bool {
    records.contains_key(serial) && records[serial].connected
}

/// What the records hold as the last known state of the printer named
/// `serial`.
pub open spec fn spec_get_state(records: Records, serial: Seq<char>) -> Option<PrinterState> {
    if records.contains_key(serial) {
        records[serial].state
    } else {
        None
    }
}

/// Whether `listing` shows the connected flag of every record, each serial
/// once.
pub open spec fn spec_is_listing(listing: Seq<(String, bool)>, records: Records) -> bool {
    &&& forall|i: int|
        0 <= i < listing.len() ==> records.contains_key(#[trigger] listing[i].0@)
            && records[listing[i].0@].connected == listing[i].1
    &&& forall|i: int, j: int|
        0 <= i < j < listing.len() ==> (#[trigger] listing[i]).0@ != (#[trigger] listing[j]).0@
    &&& forall|serial: Seq<char>| #[trigger]
        records.contains_key(serial) ==> exists|i: int|
            0 <= i < listing.len() && (#[trigger] listing[i]).0@ == serial
}

/// Supervises the sessions of many printers. It holds one record for each
/// printer that has a session.
pub struct PrinterManager {
    records: SerialMap<PrinterConnection>,
}

impl Default for PrinterManager {
    fn default() -> (manager: Self)
        ensures
            manager.wf(),
            manager@ == Map::<Seq<char>, PrinterConnection>::empty(),
    {
        PrinterManager::new()
    }
}

impl PrinterManager {
    /// Well-formedness: the records are a map, and each is filed under its
    /// own serial.
    pub closed spec fn wf(&self) -> bool {
        &&& self.records.wf()
        &&& forall|serial: Seq<char>| #[trigger]
            self.records@.contains_key(serial) ==> self.records@[serial].serial@ == serial
    }

    /// The records, by serial.
    pub closed spec fn view(&self) -> Records {
        self.records@
    }

    /// A manager without sessions.
    pub fn new() -> (manager: Self)
        ensures
            manager.wf(),
            manager@ == Map::<Seq<char>, PrinterConnection>::empty(),
    {
        PrinterManager { records: SerialMap::new() }
    }

    /// Whether the printer is connected: it has a session, and the session
    /// last reported a connection.
    pub fn is_connected(&self, serial: &str) -> (connected: bool)
        requires
            self.wf(),
        ensures
            connected == spec_is_connected(self@, serial@),
    {
        let key = serial.to_owned();
        match self.records.get(&key) {
            Some(record) => record.connected,
            None => false,
        }
    }

    /// What the manager knows of a printer: none where it has no session.
    pub fn get_connection(&self, serial: &str) -> (record: Option<&PrinterConnection>)
        requires
            self.wf(),
        ensures
            record.is_some() == self@.contains_key(serial@),
            record matches Some(r) ==> *r == self@[serial@] && r.serial@ == serial@,
    {
        let key = serial.to_owned();
        self.records.get(&key)
    }

    /// Whether the printer has a session, connected or not.
    pub fn has_session(&self, serial: &str) -> (present: bool)
        requires
            self.wf(),
        ensures
            present == self@.contains_key(serial@),
    {
        let key = serial.to_owned();
        self.records.contains(&key)
    }

    /// The connected flag of every printer that has a session.
    pub fn get_connection_statuses(&self) -> (listing: Vec<(String, bool)>)
        requires
            self.wf(),
        ensures
            spec_is_listing(listing@, self@),
    {
        let mut listing: Vec<(String, bool)> = Vec::new();
        let n: usize = self.records.len();
        let mut i: usize = 0;
        proof {
            self.records.lemma_entries();
        }
        while i < n
            invariant
                self.wf(),
                n == self.records.spec_len(),
                i <= n,
                listing@.len() == i,
                forall|j: int|
                    0 <= j < i ==> (#[trigger] listing@[j]).0@ == self.records.spec_key(j)
                        && listing@[j].1 == self.records.spec_value(j).connected,
            decreases n - i,
        {
            let key = self.records.key_at(i).clone();
            let connected = self.records.value_at(i).connected;
            listing.push((key, connected));
            i = i + 1;
        }
        proof {
            let records = self.records@;
            assert forall|serial: Seq<char>| #[trigger] records.contains_key(serial) implies exists|
                j: int,
            |
                0 <= j < listing@.len() && (#[trigger] listing@[j]).0@ == serial by {
                let j = choose|j: int| self.records.holds_at(j, serial);
                assert(self.records.holds_at(j, serial));
                assert(listing@[j].0@ == serial);
            }
            assert forall|a: int| 0 <= a < listing@.len() implies records.contains_key(
                #[trigger] listing@[a].0@,
            ) && records[listing@[a].0@].connected == listing@[a].1 by {
                assert(listing@[a].0@ == self.records.spec_key(a));
            }
            assert forall|a: int, b: int| 0 <= a < b < listing@.len() implies (
            #[trigger] listing@[a]).0@ != (#[trigger] listing@[b]).0@ by {
                assert(self.records.spec_key(a) != self.records.spec_key(b));
            }
        }
        listing
    }

    /// The last known state of the printer: none where it has no session or
    /// has not reported yet.
    pub fn get_state(&self, serial: &str) -> (state: Option<&PrinterState>)
        requires
            self.wf(),
        ensures
            state.is_some() == spec_get_state(self@, serial@).is_some(),
            state matches Some(s) ==> Some(*s) == spec_get_state(self@, serial@),
    {
        let key = serial.to_owned();
        match self.records.get(&key) {
            Some(record) => match &record.state {
                Some(state) => Some(state),
                None => None,
            },
            None => None,
        }
    }

    /// Registers a session for a printer and hands back what the session is
    /// to be started with. A printer that has a session is refused, and
    /// nothing changes.
    pub fn connect(
        &mut self,
        serial: String,
        ip_address: String,
        access_code: String,
        name: Option<String>,
    ) -> (started: Result<PrinterConfig, ManagerError>)
        requires
            old(self).wf(),
        ensures
            final(self).wf(),
            final(self)@ == spec_connect(old(self)@, serial),
            started.is_err() == old(self)@.contains_key(serial@),
            started.is_err() ==> *final(self) == *old(self),
            started matches Err(e) ==> e == (ManagerError::AlreadyConnected { serial }),
            started matches Ok(config) ==> config == (PrinterConfig {
                serial,
                ip_address,
                access_code,
                name,
            }),
    {
        if self.records.contains(&serial) {
            return Err(ManagerError::AlreadyConnected { serial });
        }
        let key = serial.clone();
        let owner = serial.clone();
        self.records.insert(key, PrinterConnection { serial: owner, connected: false, state: None });
        Ok(PrinterConfig { serial, ip_address, access_code, name })
    }

    /// Registers a session for a printer whose stored configuration may lack
    /// the address or the access code. A configuration without an address
    /// is refused, then one without an access code, then a printer that has
    /// a session; a refusal changes nothing.
    pub fn connect_stored(
        &mut self,
        serial: String,
        ip_address: Option<String>,
        access_code: Option<String>,
        name: Option<String>,
    ) -> (started: Result<PrinterConfig, ManagerError>)
        requires
            old(self).wf(),
        ensures
            final(self).wf(),
            started.is_ok() == (ip_address.is_some() && access_code.is_some()
                && !old(self)@.contains_key(serial@)),
            started.is_err() ==> *final(self) == *old(self),
            started.is_ok() ==> final(self)@ == spec_connect(old(self)@, serial),
            started matches Ok(config) ==> config == (PrinterConfig {
                serial,
                ip_address: ip_address.unwrap(),
                access_code: access_code.unwrap(),
                name,
            }),
            started matches Err(e) ==> e == (if ip_address.is_none() {
                ManagerError::MissingAddress { serial }
            } else if access_code.is_none() {
                ManagerError::MissingAccessCode { serial }
            } else {
                ManagerError::AlreadyConnected { serial }
            }),
    {
        match ip_address {
            None => Err(ManagerError::MissingAddress { serial }),
            Some(address) => match access_code {
                None => Err(ManagerError::MissingAccessCode { serial }),
                Some(code) => self.connect(serial, address, code, name),
            },
        }
    }

    /// Forgets the session of a printer: its record goes, and with it the
    /// connected flag and the last known state. Returns whether there was a
    /// session to stop; where there was none, nothing changes.
    pub fn disconnect(&mut self, serial: &str) -> (stopped: bool)
        requires
            old(self).wf(),
        ensures
            final(self).wf(),
            final(self)@ == spec_disconnect(old(self)@, serial@),
            stopped == old(self)@.contains_key(serial@),
            !stopped ==> final(self)@ == old(self)@,
    {
        let key = serial.to_owned();
        let removed = self.records.remove(&key);
        proof {
            if removed.is_none() {
                assert(old(self)@.remove(serial@) =~= old(self)@);
            }
        }
        removed.is_some()
    }

    /// Routes a command to the session of a printer: the command is handed
    /// back for the queue of that session. A printer without a session is
    /// refused. The records never change.
    pub fn send_command(&self, serial: &str, command: PrinterCommand) -> (routed: Result<
        PrinterCommand,
        ManagerError,
    >)
        requires
            self.wf(),
        ensures
            routed.is_ok() == self@.contains_key(serial@),
            routed matches Ok(c) ==> c == command,
            routed matches Err(e) ==> e matches ManagerError::NotConnected { serial: s } && s@
                == serial@,
    {
        let key = serial.to_owned();
        if self.records.contains(&key) {
            Ok(command)
        } else {
            Err(ManagerError::NotConnected { serial: key })
        }
    }

    /// Routes a request to set a tray: the command is handed back for the
    /// queue of the printer's session. A printer that is not connected is
    /// refused, and no command is made.
    pub fn set_slot_filament(&self, serial: &str, request: SetSlotFilamentRequest) -> (routed:
        Result<PrinterCommand, ManagerError>)
        requires
            self.wf(),
            spec_slot_fits(request.ams_id, request.tray_id),
        ensures
            routed.is_ok() == spec_is_connected(self@, serial@),
            routed matches Ok(c) ==> c == spec_slot_command(request),
            routed matches Err(e) ==> e matches ManagerError::NotConnected { serial: s } && s@
                == serial@,
    {
        if !self.is_connected(serial) {
            return Err(ManagerError::NotConnected { serial: serial.to_owned() });
        }
        let slot_id: i32 = request.ams_id * 4 + request.tray_id;
        Ok(
            PrinterCommand::SetFilament {
                ams_id: request.ams_id,
                tray_id: request.tray_id,
                slot_id,
                tray_info_idx: request.tray_info_idx,
                tray_type: request.tray_type,
                tray_color: request.tray_color,
                nozzle_temp_min: request.nozzle_temp_min,
                nozzle_temp_max: request.nozzle_temp_max,
            },
        )
    }

    /// Takes in an event of a session.
    pub fn handle_event(&mut self, event: PrinterEvent)
        requires
            old(self).wf(),
        ensures
            final(self).wf(),
            final(self)@ == spec_handle_event(old(self)@, event),
    {
        match event {
            PrinterEvent::Connected { serial } => {
                let found = self.records.remove(&serial);
                match found {
                    Some(record) => {
                        let key = serial.clone();
                        self.records.insert(
                            key,
                            PrinterConnection {
                                serial: record.serial,
                                connected: true,
                                state: record.state,
                            },
                        );
                        assert(self.records@ =~= spec_handle_event(old(self)@, event));
                    },
                    None => {
                        assert(self.records@ =~= old(self)@);
                    },
                }
            },
            PrinterEvent::Disconnected { serial } => {
                let found = self.records.remove(&serial);
                match found {
                    Some(record) => {
                        let key = serial.clone();
                        self.records.insert(
                            key,
                            PrinterConnection {
                                serial: record.serial,
                                connected: false,
                                state: record.state,
                            },
                        );
                        assert(self.records@ =~= spec_handle_event(old(self)@, event));
                    },
                    None => {
                        assert(self.records@ =~= old(self)@);
                    },
                }
            },
            PrinterEvent::StateUpdate { serial, state } => {
                let found = self.records.remove(&serial);
                match found {
                    Some(record) => {
                        let key = serial.clone();
                        self.records.insert(
                            key,
                            PrinterConnection {
                                serial: record.serial,
                                connected: record.connected,
                                state: Some(state),
                            },
                        );
                        assert(self.records@ =~= spec_handle_event(old(self)@, event));
                    },
                    None => {
                        assert(self.records@ =~= old(self)@);
                    },
                }
            },
            PrinterEvent::Error { serial, message } => {
                assert(old(self)@.contains_key(serial@) ==> old(self)@.insert(
                    serial@,
                    old(self)@[serial@],
                ) =~= old(self)@);
            },
        }
    }
}

/// One thing that can happen to the manager.
pub enum ManagerStep {
    /// A request to connect the printer with this serial.
    Connect { serial: String },
    /// A request to disconnect the printer with this serial.
    Disconnect { serial: Seq<char> },
    /// A command for the printer with this serial.
    SendCommand { serial: Seq<char> },
    /// An event of some session.
    Event { event: PrinterEvent },
}

/// The records after one step.
pub open spec fn spec_step(records: Records, step: ManagerStep) -> Records {
    match step {
        ManagerStep::Connect { serial } => spec_connect(records, serial),
        ManagerStep::Disconnect { serial } => spec_disconnect(records, serial),
        ManagerStep::SendCommand { serial } => records,
        ManagerStep::Event { event } => spec_handle_event(records, event),
    }
}

/// The records after a sequence of steps, taken in order.
pub open spec fn spec_run(records: Records, steps: Seq<ManagerStep>) -> Records
    decreases steps.len(),
{
    if steps.len() == 0 {
        records
    } else {
        spec_step(spec_run(records, steps.drop_last()), steps.last())
    }
}

/// Whether a step is a request to disconnect the printer named `serial`.
pub open spec fn spec_disconnects(step: ManagerStep, serial: Seq<char>) -> bool {
    step matches ManagerStep::Disconnect { serial: s } && s == serial
}

/// Whether a step is a state update of the printer named `serial`.
pub open spec fn spec_updates_state(step: ManagerStep, serial: Seq<char>) -> bool {
    step matches ManagerStep::Event { event: PrinterEvent::StateUpdate { serial: s, state } }
        && s@ == serial
}

/// The events that report the given states of one printer, in order.
pub open spec fn spec_state_updates(serial: String, states: Seq<PrinterState>) -> Seq<ManagerStep> {
    Seq::new(
        states.len(),
        |i: int|
            ManagerStep::Event { event: PrinterEvent::StateUpdate { serial, state: states[i] } },
    )
}

/// A session lasts until it is disconnected: whatever else happens in
/// between, a printer that has a record keeps one.
pub proof fn lemma_session_lasts(records: Records, serial: Seq<char>, steps: Seq<ManagerStep>)
    requires
        records.contains_key(serial),
        forall|i: int| 0 <= i < steps.len() ==> !spec_disconnects(#[trigger] steps[i], serial),
    ensures
        spec_run(records, steps).contains_key(serial),
    decreases steps.len(),
{
    if steps.len() > 0 {
        lemma_session_lasts(records, serial, steps.drop_last());
        assert(!spec_disconnects(steps[steps.len() - 1], serial));
    }
}

/// Connecting a printer twice without disconnecting it in between fails the
/// second time and changes nothing: after the first request, and whatever
/// steps other than its disconnection follow, the printer has a session, so
/// a further request leaves the records as they are.
pub proof fn lemma_second_connect_refused(
    records: Records,
    serial: String,
    steps: Seq<ManagerStep>,
)
    requires
        forall|i: int| 0 <= i < steps.len() ==> !spec_disconnects(#[trigger] steps[i], serial@),
    ensures
        spec_run(spec_connect(records, serial), steps).contains_key(serial@),
        spec_connect(spec_run(spec_connect(records, serial), steps), serial) == spec_run(
            spec_connect(records, serial),
            steps,
        ),
{
    lemma_session_lasts(spec_connect(records, serial), serial@, steps);
}

/// Disconnecting a printer that has no session changes nothing.
pub proof fn lemma_disconnect_unknown_changes_nothing(records: Records, serial: Seq<char>)
    requires
        !records.contains_key(serial),
    ensures
        spec_disconnect(records, serial) == records,
{
    assert(records.remove(serial) =~= records);
}

/// After a disconnection the printer is not connected and nothing is known
/// of it.
pub proof fn lemma_disconnect_forgets(records: Records, serial: Seq<char>)
    ensures
        !spec_is_connected(spec_disconnect(records, serial), serial),
        spec_get_state(spec_disconnect(records, serial), serial).is_none(),
{
}

/// A state update replaces the last known state of its printer whole, and
/// touches no other record.
pub proof fn lemma_state_update_replaces(
    records: Records,
    serial: String,
    state: PrinterState,
    other: Seq<char>,
)
    requires
        records.contains_key(serial@),
    ensures
        spec_get_state(
            spec_handle_event(records, PrinterEvent::StateUpdate { serial, state }),
            serial@,
        ) == Some(state),
        other != serial@ ==> spec_handle_event(
            records,
            PrinterEvent::StateUpdate { serial, state },
        ).contains_key(other) == records.contains_key(other),
        other != serial@ && records.contains_key(other) ==> spec_handle_event(
            records,
            PrinterEvent::StateUpdate { serial, state },
        )[other] == records[other],
{
}

/// The last known state stays through every step that is neither a state
/// update nor a disconnection of its printer.
pub proof fn lemma_state_kept(records: Records, serial: Seq<char>, step: ManagerStep)
    requires
        records.contains_key(serial),
        !spec_disconnects(step, serial),
        !spec_updates_state(step, serial),
    ensures
        spec_get_state(spec_step(records, step), serial) == spec_get_state(records, serial),
{
}

/// After a sequence of state updates of one printer that has a session, the
/// last known state is the one reported last.
pub proof fn lemma_state_is_latest(records: Records, serial: String, states: Seq<PrinterState>)
    requires
        records.contains_key(serial@),
        states.len() > 0,
    ensures
        spec_get_state(spec_run(records, spec_state_updates(serial, states)), serial@) == Some(
            states.last(),
        ),
{
    let steps = spec_state_updates(serial, states);
    assert forall|i: int| 0 <= i < steps.drop_last().len() implies !spec_disconnects(
        #[trigger] steps.drop_last()[i],
        serial@,
    ) by {}
    lemma_session_lasts(records, serial@, steps.drop_last());
    assert(steps.last() == ManagerStep::Event {
        event: PrinterEvent::StateUpdate { serial, state: states.last() },
    });
}

/// A state update or an error report changes no connected flag, and neither
/// adds nor removes a record.
pub proof fn lemma_report_keeps_connection(records: Records, event: PrinterEvent, serial: Seq<char>)
    requires
        event is StateUpdate || event is Error,
    ensures
        spec_is_connected(spec_handle_event(records, event), serial) == spec_is_connected(
            records,
            serial,
        ),
        spec_handle_event(records, event).contains_key(serial) == records.contains_key(serial),
{
}

/// An error report changes nothing at all.
pub proof fn lemma_error_changes_nothing(records: Records, serial: String, message: String)
    ensures
        spec_handle_event(records, PrinterEvent::Error { serial, message }) == records,
{
    if records.contains_key(serial@) {
        assert(records.insert(serial@, records[serial@]) =~= records);
    }
}

/// The records after the session of a printer took in an input and the
/// manager took in what the session announced.
pub open spec fn spec_after_input(
    records: Records,
    serial: String,
    phase: SessionPhase,
    polls: u32,
    input: SessionInput,
) -> Records {
    match spec_announcement(serial, spec_transition(phase, polls, input).2) {
        Some(event) => spec_handle_event(records, event),
        None => records,
    }
}

/// The phase, the polls and the records after a session took in a sequence
/// of inputs, each announcement handed to the manager as it was made.
pub open spec fn spec_drive(
    records: Records,
    serial: String,
    phase: SessionPhase,
    polls: u32,
    inputs: Seq<SessionInput>,
) -> (SessionPhase, u32, Records)
    decreases inputs.len(),
{
    if inputs.len() == 0 {
        (phase, polls, records)
    } else {
        let before = spec_drive(records, serial, phase, polls, inputs.drop_last());
        let next = spec_transition(before.0, before.1, inputs.last());
        (next.0, next.1, spec_after_input(before.2, serial, before.0, before.1, inputs.last()))
    }
}

/// The manager shows a printer as connected exactly while its session is in
/// the steady state: where that holds at the start, it holds after every
/// sequence of inputs to the session, as long as the printer keeps its
/// record.
pub proof fn lemma_connected_while_active(
    records: Records,
    serial: String,
    phase: SessionPhase,
    polls: u32,
    inputs: Seq<SessionInput>,
)
    requires
        records.contains_key(serial@),
        spec_is_connected(records, serial@) == (phase == SessionPhase::Active),
    ensures
        spec_drive(records, serial, phase, polls, inputs).2.contains_key(serial@),
        spec_is_connected(spec_drive(records, serial, phase, polls, inputs).2, serial@) == (
        spec_drive(records, serial, phase, polls, inputs).0 == SessionPhase::Active),
    decreases inputs.len(),
{
    if inputs.len() > 0 {
        lemma_connected_while_active(records, serial, phase, polls, inputs.drop_last());
    }
}

/// A session that is connected from scratch and then stopped leaves the
/// manager showing the printer connected in between and not connected at
/// the end.
pub proof fn lemma_connect_then_stop(records: Records, serial: String)
    requires
        records.contains_key(serial@),
        !spec_is_connected(records, serial@),
    ensures
        spec_is_connected(
            spec_drive(
                records,
                serial,
                SessionPhase::Connecting,
                0,
                seq![SessionInput::TransportOpened, SessionInput::ConnAck, SessionInput::Ready],
            ).2,
            serial@,
        ),
        !spec_is_connected(
            spec_drive(
                records,
                serial,
                SessionPhase::Connecting,
                0,
                seq![
                    SessionInput::TransportOpened,
                    SessionInput::ConnAck,
                    SessionInput::Ready,
                    SessionInput::Stop,
                ],
            ).2,
            serial@,
        ),
{
    let up = seq![SessionInput::TransportOpened, SessionInput::ConnAck, SessionInput::Ready];
    let down = seq![
        SessionInput::TransportOpened,
        SessionInput::ConnAck,
        SessionInput::Ready,
        SessionInput::Stop,
    ];
    let one = seq![SessionInput::TransportOpened];
    let two = seq![SessionInput::TransportOpened, SessionInput::ConnAck];
    assert(one.drop_last() =~= Seq::<SessionInput>::empty());
    assert(two.drop_last() =~= one);
    assert(up.drop_last() =~= two);
    assert(down.drop_last() =~= up);
    let start = spec_drive(records, serial, SessionPhase::Connecting, 0, one.drop_last());
    assert(start.0 == SessionPhase::Connecting);
    let s1 = spec_drive(records, serial, SessionPhase::Connecting, 0, one);
    assert(s1.0 == SessionPhase::Authenticating);
    let s2 = spec_drive(records, serial, SessionPhase::Connecting, 0, two);
    assert(s2.0 == SessionPhase::Subscribed);
    let s3 = spec_drive(records, serial, SessionPhase::Connecting, 0, up);
    assert(s3.0 == SessionPhase::Active);
    let s4 = spec_drive(records, serial, SessionPhase::Connecting, 0, down);
    assert(s4.0 == SessionPhase::Stopped);
    lemma_connected_while_active(records, serial, SessionPhase::Connecting, 0, up);
    lemma_connected_while_active(records, serial, SessionPhase::Connecting, 0, down);
}

} // verus!
