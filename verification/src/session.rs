//! The protocol session of one printer: what a connection needs, how a
//! report becomes a state snapshot, how a command becomes a request, and the
//! life cycle from connecting to stopped.

use vstd::prelude::*;
use vstd::string::*;
use crate::decode::{decode_message, Decode};
use crate::json::Json;
use crate::messages::Print;
use crate::text::spec_text;
use crate::messages::{
    lemma_gcode_state_round_trip, AmsFilamentSetting, AmsFilamentSettingCommand, GcodeState,
    GetVersionCommand, Message, PrintAmsData, PrintData, PrintTray, PushAllCommand,
};

verus! {

/// What is needed to reach one printer.
#[derive(Debug, Clone)]
pub struct PrinterConfig {
    pub serial: String,
    pub ip_address: String,
    pub access_code: String,
    pub name: Option<String>,
}

/// What a session tells the rest of the system.
#[derive(Debug, Clone)]
pub enum PrinterEvent {
    Connected { serial: String },
    Disconnected { serial: String },
    StateUpdate { serial: String, state: PrinterState },
    Error { serial: String, message: String },
}

/// The last known state of a printer, as one report gives it.
#[derive(Debug, Clone, Default)]
pub struct PrinterState {
    pub gcode_state: Option<String>,
    pub print_progress: Option<u32>,
    pub layer_num: Option<i32>,
    pub total_layer_num: Option<i32>,
    pub subtask_name: Option<String>,
    pub ams_trays: Vec<AmsTrayState>,
    pub vt_tray: Option<AmsTrayState>,
}

/// One tray that holds a spool.
#[derive(Debug, Clone, Default)]
pub struct AmsTrayState {
    pub ams_id: u32,
    pub tray_id: u32,
    pub tray_type: Option<String>,
    pub tray_color: Option<String>,
    pub tray_info_idx: Option<String>,
    /// Calibration coefficient, held as the bits of a single-precision
    /// number.
    pub k_value: Option<u32>,
}

/// What a caller can ask of a printer.
#[derive(Debug, Clone)]
pub enum PrinterCommand {
    /// Request full state push
    PushAll,
    /// Get version information
    GetVersion,
    /// Set filament in AMS slot
    SetFilament {
        ams_id: i32,
        tray_id: i32,
        slot_id: i32,
        tray_info_idx: String,
        tray_type: String,
        tray_color: String,
        nozzle_temp_min: u32,
        nozzle_temp_max: u32,
    },
}

/// Unit number under which the external spool holder is reported.
pub const EXTERNAL_UNIT_ID: u32 = 255;

/// Tray number of the external spool holder where the report gives none.
pub const EXTERNAL_TRAY_ID: u32 = 254;

// ---------------------------------------------------------------------
// Reports
// ---------------------------------------------------------------------

/// The tray state that stands for a reported tray under the given unit and
/// tray numbers.
pub open spec fn spec_tray_state(ams_id: u32, tray_id: u32, tray: PrintTray) -> AmsTrayState {
    AmsTrayState {
        ams_id,
        tray_id,
        tray_type: tray.tray_type,
        tray_color: tray.tray_color,
        tray_info_idx: tray.tray_info_idx,
        k_value: tray.k,
    }
}

/// The states of the first `n` trays of a unit: one for each tray that has an
/// identifier, in the order of the report.
pub open spec fn spec_unit_trays(unit: PrintAmsData, n: nat) -> Seq<AmsTrayState>
    decreases n,
{
    if n == 0 {
        Seq::empty()
    } else {
        let tray = unit.tray@[n - 1];
        let before = spec_unit_trays(unit, (n - 1) as nat);
        match tray.id {
            Some(id) => before.push(spec_tray_state(unit.id, id, tray)),
            None => before,
        }
    }
}

/// The tray states of the first `n` units, unit after unit.
pub open spec fn spec_units_trays(units: Seq<PrintAmsData>, n: nat) -> Seq<AmsTrayState>
    decreases n,
{
    if n == 0 {
        Seq::empty()
    } else {
        spec_units_trays(units, (n - 1) as nat) + spec_unit_trays(
            units[n - 1],
            units[n - 1].tray@.len(),
        )
    }
}

/// The tray table that a report denotes: empty where the report has none.
pub open spec fn spec_report_trays(data: PrintData) -> Seq<AmsTrayState> {
    match data.ams {
        Some(ams) => match ams.ams {
            Some(units) => spec_units_trays(units@, units@.len()),
            None => Seq::empty(),
        },
        None => Seq::empty(),
    }
}

/// The state of the external spool holder that a report denotes.
pub open spec fn spec_report_external(data: PrintData) -> Option<AmsTrayState> {
    match data.vt_tray {
        Some(tray) => Some(
            spec_tray_state(
                EXTERNAL_UNIT_ID,
                match tray.id {
                    Some(id) => id,
                    None => EXTERNAL_TRAY_ID,
                },
                tray,
            ),
        ),
        None => None,
    }
}

/// Whether `state` is the snapshot that the report `data` denotes: every
/// field taken from the report, the phase by its word, the tray table
/// rebuilt from nothing.
pub open spec fn spec_state_of_report(state: PrinterState, data: PrintData) -> bool {
    &&& state.gcode_state.is_some() == data.gcode_state.is_some()
    &&& data.gcode_state matches Some(phase) ==> state.gcode_state.unwrap()@ == phase.spec_name()
    &&& state.print_progress == data.gcode_file_prepare_percent
    &&& state.layer_num == data.layer_num
    &&& state.total_layer_num == data.total_layer_num
    &&& state.subtask_name == data.subtask_name
    &&& state.ams_trays@ == spec_report_trays(data)
    &&& state.vt_tray == spec_report_external(data)
}

fn copy_text(text: &Option<String>) -> (copy: Option<String>)
    ensures
        copy == *text,
{
    match text {
        Some(t) => Some(t.clone()),
        None => None,
    }
}

fn tray_state(ams_id: u32, tray_id: u32, tray: &PrintTray) -> (state: AmsTrayState)
    ensures
        state == spec_tray_state(ams_id, tray_id, *tray),
{
    AmsTrayState {
        ams_id,
        tray_id,
        tray_type: copy_text(&tray.tray_type),
        tray_color: copy_text(&tray.tray_color),
        tray_info_idx: copy_text(&tray.tray_info_idx),
        k_value: tray.k,
    }
}

fn push_unit_trays(unit: &PrintAmsData, out: &mut Vec<AmsTrayState>)
    ensures
        final(out)@ == old(out)@ + spec_unit_trays(*unit, unit.tray@.len()),
{
    let mut i: usize = 0;
    assert(out@ =~= old(out)@ + spec_unit_trays(*unit, 0));
    while i < unit.tray.len()
        invariant
            i <= unit.tray@.len(),
            out@ == old(out)@ + spec_unit_trays(*unit, i as nat),
        decreases unit.tray@.len() - i,
    {
        let tray = &unit.tray[i];
        match tray.id {
            Some(id) => {
                out.push(tray_state(unit.id, id, tray));
            },
            None => {},
        }
        i = i + 1;
        assert(out@ =~= old(out)@ + spec_unit_trays(*unit, i as nat));
    }
}

/// The snapshot that a report denotes. Nothing of an earlier snapshot is
/// kept: a report always carries the full tray table.
pub fn state_from_report(data: &PrintData) -> (state: PrinterState)
    ensures
        spec_state_of_report(state, *data),
{
    let gcode_state: Option<String> = match &data.gcode_state {
        Some(phase) => Some(phase.name()),
        None => None,
    };
    let mut trays: Vec<AmsTrayState> = Vec::new();
    match &data.ams {
        Some(ams) => match &ams.ams {
            Some(units) => {
                let mut i: usize = 0;
                assert(trays@ =~= spec_units_trays(units@, 0));
                while i < units.len()
                    invariant
                        i <= units@.len(),
                        trays@ == spec_units_trays(units@, i as nat),
                    decreases units@.len() - i,
                {
                    push_unit_trays(&units[i], &mut trays);
                    i = i + 1;
                }
            },
            None => {},
        },
        None => {},
    }
    let vt_tray: Option<AmsTrayState> = match &data.vt_tray {
        Some(tray) => {
            let tray_id: u32 = match tray.id {
                Some(id) => id,
                None => EXTERNAL_TRAY_ID,
            };
            Some(tray_state(EXTERNAL_UNIT_ID, tray_id, tray))
        },
        None => None,
    };
    PrinterState {
        gcode_state,
        print_progress: data.gcode_file_prepare_percent,
        layer_num: data.layer_num,
        total_layer_num: data.total_layer_num,
        subtask_name: copy_text(&data.subtask_name),
        ams_trays: trays,
        vt_tray,
    }
}

/// The phase of the print job that a snapshot shows: unknown where the
/// snapshot has no phase.
pub open spec fn spec_phase_of(state: PrinterState) -> GcodeState {
    match state.gcode_state {
        Some(word) => GcodeState::spec_from_name(word@),
        None => GcodeState::Unknown,
    }
}

impl PrinterState {
    /// The phase of the print job.
    pub fn phase(&self) -> (phase: GcodeState)
        ensures
            phase == spec_phase_of(*self),
    {
        match &self.gcode_state {
            Some(word) => GcodeState::from_name(word.as_str()),
            None => GcodeState::Unknown,
        }
    }
}

/// The snapshot of a report shows the phase that the report gives, and an
/// unknown phase where the report gives none.
pub proof fn lemma_phase_of_report(state: PrinterState, data: PrintData)
    requires
        spec_state_of_report(state, data),
    ensures
        spec_phase_of(state) == (match data.gcode_state {
            Some(phase) => phase,
            None => GcodeState::Unknown,
        }),
{
    if let Some(phase) = data.gcode_state {
        lemma_gcode_state_round_trip(phase);
    }
}

// ---------------------------------------------------------------------
// Commands
// ---------------------------------------------------------------------

/// A command as a mathematical value.
pub enum CommandView {
    PushAll,
    GetVersion,
    SetFilament {
        ams_id: i32,
        tray_id: i32,
        slot_id: i32,
        tray_info_idx: Seq<char>,
        tray_type: Seq<char>,
        tray_color: Seq<char>,
        nozzle_temp_min: u32,
        nozzle_temp_max: u32,
    },
}

impl View for PrinterCommand {
    type V = CommandView;

    open spec fn view(&self) -> CommandView {
        match *self {
            PrinterCommand::PushAll => CommandView::PushAll,
            PrinterCommand::GetVersion => CommandView::GetVersion,
            PrinterCommand::SetFilament {
                ams_id,
                tray_id,
                slot_id,
                tray_info_idx,
                tray_type,
                tray_color,
                nozzle_temp_min,
                nozzle_temp_max,
            } => CommandView::SetFilament {
                ams_id,
                tray_id,
                slot_id,
                tray_info_idx: tray_info_idx@,
                tray_type: tray_type@,
                tray_color: tray_color@,
                nozzle_temp_min,
                nozzle_temp_max,
            },
        }
    }
}

/// The request that goes over the wire for a command.
#[derive(Debug, Clone, PartialEq)]
pub enum WireRequest {
    PushAll(PushAllCommand),
    GetVersion(GetVersionCommand),
    AmsFilamentSetting(AmsFilamentSettingCommand),
}

/// The body of a filament setting request as a mathematical value.
pub struct SettingView {
    pub command: Seq<char>,
    pub ams_id: i32,
    pub tray_id: i32,
    pub slot_id: i32,
    pub tray_info_idx: Seq<char>,
    pub setting_id: Option<Seq<char>>,
    pub tray_color: Seq<char>,
    pub nozzle_temp_min: u32,
    pub nozzle_temp_max: u32,
    pub tray_type: Seq<char>,
    pub sequence_id: Seq<char>,
}

/// A wire request as a mathematical value.
pub enum RequestView {
    PushAll { command: Seq<char>, sequence_id: Option<Seq<char>> },
    GetVersion { command: Seq<char>, sequence_id: Option<Seq<char>> },
    AmsFilamentSetting { body: SettingView },
}

impl View for AmsFilamentSetting {
    type V = SettingView;

    open spec fn view(&self) -> SettingView {
        SettingView {
            command: self.command@,
            ams_id: self.ams_id,
            tray_id: self.tray_id,
            slot_id: self.slot_id,
            tray_info_idx: self.tray_info_idx@,
            setting_id: spec_text(self.setting_id),
            tray_color: self.tray_color@,
            nozzle_temp_min: self.nozzle_temp_min,
            nozzle_temp_max: self.nozzle_temp_max,
            tray_type: self.tray_type@,
            sequence_id: self.sequence_id@,
        }
    }
}

impl View for WireRequest {
    type V = RequestView;

    open spec fn view(&self) -> RequestView {
        match *self {
            WireRequest::PushAll(cmd) => RequestView::PushAll {
                command: cmd.pushing.command@,
                sequence_id: spec_text(cmd.pushing.sequence_id),
            },
            WireRequest::GetVersion(cmd) => RequestView::GetVersion {
                command: cmd.info.command@,
                sequence_id: spec_text(cmd.info.sequence_id),
            },
            WireRequest::AmsFilamentSetting(cmd) => RequestView::AmsFilamentSetting {
                body: cmd.print@,
            },
        }
    }
}

/// The request that stands for a command: one request for each command, its
/// sequence token always "1", a filament setting without a setting name.
pub open spec fn spec_encode_command(command: CommandView) -> RequestView {
    match command {
        CommandView::PushAll => RequestView::PushAll {
            command: "pushall"@,
            sequence_id: Some("1"@),
        },
        CommandView::GetVersion => RequestView::GetVersion {
            command: "get_version"@,
            sequence_id: Some("1"@),
        },
        CommandView::SetFilament {
            ams_id,
            tray_id,
            slot_id,
            tray_info_idx,
            tray_type,
            tray_color,
            nozzle_temp_min,
            nozzle_temp_max,
        } => RequestView::AmsFilamentSetting {
            body: SettingView {
                command: "ams_filament_setting"@,
                ams_id,
                tray_id,
                slot_id,
                tray_info_idx,
                setting_id: None,
                tray_color,
                nozzle_temp_min,
                nozzle_temp_max,
                tray_type,
                sequence_id: "1"@,
            },
        },
    }
}

/// The command that a request stands for: the request must carry the word of
/// its shape; its sequence token and setting name are not looked at.
pub open spec fn spec_decode_request(request: RequestView) -> Option<CommandView> {
    match request {
        RequestView::PushAll { command, sequence_id } => if command == "pushall"@ {
            Some(CommandView::PushAll)
        } else {
            None
        },
        RequestView::GetVersion { command, sequence_id } => if command == "get_version"@ {
            Some(CommandView::GetVersion)
        } else {
            None
        },
        RequestView::AmsFilamentSetting { body } => if body.command == "ams_filament_setting"@ {
            Some(
                CommandView::SetFilament {
                    ams_id: body.ams_id,
                    tray_id: body.tray_id,
                    slot_id: body.slot_id,
                    tray_info_idx: body.tray_info_idx,
                    tray_type: body.tray_type,
                    tray_color: body.tray_color,
                    nozzle_temp_min: body.nozzle_temp_min,
                    nozzle_temp_max: body.nozzle_temp_max,
                },
            )
        } else {
            None
        },
    }
}

/// Encoding a command and decoding the request gives the command back.
pub proof fn lemma_command_round_trip(command: CommandView)
    ensures
        spec_decode_request(spec_encode_command(command)) == Some(command),
{
}

/// Turns a command into its one wire request.
pub fn encode_command(command: &PrinterCommand) -> (request: WireRequest)
    ensures
        request@ == spec_encode_command(command@),
{
    match command {
        PrinterCommand::PushAll => WireRequest::PushAll(PushAllCommand::new()),
        PrinterCommand::GetVersion => WireRequest::GetVersion(GetVersionCommand::new()),
        PrinterCommand::SetFilament {
            ams_id,
            tray_id,
            slot_id,
            tray_info_idx,
            tray_type,
            tray_color,
            nozzle_temp_min,
            nozzle_temp_max,
        } => WireRequest::AmsFilamentSetting(
            AmsFilamentSettingCommand::new(
                *ams_id,
                *tray_id,
                *slot_id,
                tray_info_idx.as_str(),
                None,
                tray_type.as_str(),
                tray_color.as_str(),
                *nozzle_temp_min,
                *nozzle_temp_max,
            ),
        ),
    }
}

fn is_word(text: &String, word: &str) -> (same: bool)
    ensures
        same == (text@ == word@),
{
    let w = word.to_owned();
    *text == w
}

/// Reads a wire request back into the command it stands for.
pub fn decode_request(request: &WireRequest) -> (command: Option<PrinterCommand>)
    ensures
        command.is_some() == spec_decode_request(request@).is_some(),
        command matches Some(c) ==> spec_decode_request(request@) == Some(c@),
{
    match request {
        WireRequest::PushAll(cmd) => {
            if is_word(&cmd.pushing.command, "pushall") {
                Some(PrinterCommand::PushAll)
            } else {
                None
            }
        },
        WireRequest::GetVersion(cmd) => {
            if is_word(&cmd.info.command, "get_version") {
                Some(PrinterCommand::GetVersion)
            } else {
                None
            }
        },
        WireRequest::AmsFilamentSetting(cmd) => {
            if is_word(&cmd.print.command, "ams_filament_setting") {
                Some(
                    PrinterCommand::SetFilament {
                        ams_id: cmd.print.ams_id,
                        tray_id: cmd.print.tray_id,
                        slot_id: cmd.print.slot_id,
                        tray_info_idx: cmd.print.tray_info_idx.clone(),
                        tray_type: cmd.print.tray_type.clone(),
                        tray_color: cmd.print.tray_color.clone(),
                        nozzle_temp_min: cmd.print.nozzle_temp_min,
                        nozzle_temp_max: cmd.print.nozzle_temp_max,
                    },
                )
            } else {
                None
            }
        },
    }
}

// ---------------------------------------------------------------------
// Channels and connection parameters
// ---------------------------------------------------------------------

/// Port on which a printer accepts encrypted connections.
pub const PRINTER_PORT: u16 = 8883;

/// User name under which every client signs in.
pub const CLIENT_USER: &'static str = "bblp";

/// Seconds between keep-alive probes.
pub const KEEP_ALIVE_SECS: u64 = 30;

/// Largest packet accepted or sent, in bytes: reports can exceed 15 KB.
pub const MAX_PACKET_SIZE: usize = 65536;

/// Polls for the connection acknowledgement before a connect has failed.
pub const HANDSHAKE_ATTEMPTS: u32 = 30;

/// Seconds that one poll for the acknowledgement waits.
pub const HANDSHAKE_INTERVAL_SECS: u64 = 1;

/// Seconds between a failure and the next connect.
pub const RECONNECT_DELAY_SECS: u64 = 5;

/// Commands that the queue of one session holds.
pub const COMMAND_QUEUE_CAPACITY: usize = 32;

/// The channel on which the printer named `serial` publishes its reports.
pub open spec fn spec_report_topic(serial: Seq<char>) -> Seq<char> {
    "device/"@ + serial + "/report"@
}

/// The channel on which the printer named `serial` accepts requests.
pub open spec fn spec_request_topic(serial: Seq<char>) -> Seq<char> {
    "device/"@ + serial + "/request"@
}

/// The identity under which a client signs in to the printer named `serial`.
pub open spec fn spec_client_id(serial: Seq<char>) -> Seq<char> {
    "spoolbuddy-"@ + serial
}

/// The channel on which the printer named `serial` publishes its reports.
pub fn report_topic(serial: &str) -> (topic: String)
    ensures
        topic@ == spec_report_topic(serial@),
{
    let mut topic = "device/".to_owned();
    topic.append(serial);
    topic.append("/report");
    topic
}

/// The channel on which the printer named `serial` accepts requests.
pub fn request_topic(serial: &str) -> (topic: String)
    ensures
        topic@ == spec_request_topic(serial@),
{
    let mut topic = "device/".to_owned();
    topic.append(serial);
    topic.append("/request");
    topic
}

/// The identity under which a client signs in to the printer named `serial`.
pub fn client_id(serial: &str) -> (id: String)
    ensures
        id@ == spec_client_id(serial@),
{
    let mut id = "spoolbuddy-".to_owned();
    id.append(serial);
    id
}

/// Everything the transport needs to open a connection. The printers carry
/// certificates that they signed themselves, so the link is encrypted and
/// the certificate is never verified.
#[derive(Debug, Clone)]
pub struct ConnectionParams {
    pub client_id: String,
    pub host: String,
    pub port: u16,
    pub username: String,
    pub password: String,
    pub keep_alive_secs: u64,
    pub max_packet_size: usize,
    pub verify_certificate: bool,
}

/// The connection parameters for a printer.
pub fn connection_params(config: &PrinterConfig) -> (params: ConnectionParams)
    ensures
        params.client_id@ == spec_client_id(config.serial@),
        params.host == config.ip_address,
        params.port == PRINTER_PORT,
        params.username@ == CLIENT_USER@,
        params.password == config.access_code,
        params.keep_alive_secs == KEEP_ALIVE_SECS,
        params.max_packet_size == MAX_PACKET_SIZE,
        !params.verify_certificate,
{
    ConnectionParams {
        client_id: client_id(config.serial.as_str()),
        host: config.ip_address.clone(),
        port: PRINTER_PORT,
        username: CLIENT_USER.to_owned(),
        password: config.access_code.clone(),
        keep_alive_secs: KEEP_ALIVE_SECS,
        max_packet_size: MAX_PACKET_SIZE,
        verify_certificate: false,
    }
}

// ---------------------------------------------------------------------
// Life cycle
// ---------------------------------------------------------------------

/// Where a session stands.
#[derive(Debug, Clone, Copy, PartialEq, Eq, Structural)]
pub enum SessionPhase {
    /// Opening the encrypted transport.
    Connecting,
    /// Signed in, polling for the connection acknowledgement.
    Authenticating,
    /// Acknowledged; subscribing and asking for the full state.
    Subscribed,
    /// Steady state: reports come in, commands go out.
    Active,
    /// Waiting out the delay after a failure.
    Reconnecting,
    /// Stopped for good.
    Stopped,
}

/// What the transport or the caller reports to a session.
#[derive(Debug, Clone, Copy, PartialEq, Eq, Structural)]
pub enum SessionInput {
    /// The transport is open.
    TransportOpened,
    /// The connection acknowledgement arrived.
    ConnAck,
    /// A poll ended without a packet.
    PollTimeout,
    /// A packet arrived that the session has no use for.
    OtherPacket,
    /// The subscription was made and the request for the full state sent.
    Ready,
    /// A payload arrived on the report channel.
    Report,
    /// A command was taken from the queue.
    Command,
    /// The transport failed: connect, read or write.
    Failure,
    /// The delay before a new connect has passed.
    DelayElapsed,
    /// The caller wants the session to end.
    Stop,
}

/// What a session asks its driver to do next.
#[derive(Debug, Clone, Copy, PartialEq, Eq, Structural)]
pub enum SessionAction {
    /// Open the transport with the connection parameters.
    OpenTransport,
    /// Poll once for the connection acknowledgement.
    Poll,
    /// Subscribe to the report channel, then request the full state.
    Subscribe,
    /// Emit `Connected`, then serve.
    AnnounceConnected,
    /// Wait for the next packet or command.
    Serve,
    /// Decode the payload and emit what it gives rise to, then serve.
    HandleReport,
    /// Publish the command, then serve; a command that cannot be published
    /// is dropped.
    PublishCommand,
    /// Emit `Disconnected`, then wait out the reconnect delay.
    AnnounceDisconnectedAndWait,
    /// Go on waiting out the reconnect delay.
    Wait,
    /// Emit `Disconnected`, then end.
    AnnounceDisconnectedAndExit,
    /// End.
    Exit,
}

/// What a session in a given phase is busy with.
pub open spec fn spec_pending(phase: SessionPhase) -> SessionAction {
    match phase {
        SessionPhase::Connecting => SessionAction::OpenTransport,
        SessionPhase::Authenticating => SessionAction::Poll,
        SessionPhase::Subscribed => SessionAction::Subscribe,
        SessionPhase::Active => SessionAction::Serve,
        SessionPhase::Reconnecting => SessionAction::Wait,
        SessionPhase::Stopped => SessionAction::Exit,
    }
}

/// The life cycle: from a phase, the number of polls used so far and an
/// input to the next phase, the polls used then, and what to do next.
///
/// A stop ends the session from every phase, and announces the
/// disconnection only where the session was active. A failure leads to a
/// new connect after the delay, without limit. An acknowledgement that does
/// not arrive within the allowed polls is a failure. An input that has no
/// meaning in a phase changes nothing.
pub open spec fn spec_transition(phase: SessionPhase, polls: u32, input: SessionInput) -> (
    SessionPhase,
    u32,
    SessionAction,
) {
    if phase == SessionPhase::Stopped {
        (SessionPhase::Stopped, polls, SessionAction::Exit)
    } else if input == SessionInput::Stop {
        if phase == SessionPhase::Active {
            (SessionPhase::Stopped, polls, SessionAction::AnnounceDisconnectedAndExit)
        } else {
            (SessionPhase::Stopped, polls, SessionAction::Exit)
        }
    } else if input == SessionInput::Failure && phase != SessionPhase::Reconnecting {
        (SessionPhase::Reconnecting, 0, SessionAction::AnnounceDisconnectedAndWait)
    } else {
        match (phase, input) {
            (SessionPhase::Connecting, SessionInput::TransportOpened) => (
                SessionPhase::Authenticating,
                0,
                SessionAction::Poll,
            ),
            (SessionPhase::Authenticating, SessionInput::ConnAck) => (
                SessionPhase::Subscribed,
                0,
                SessionAction::Subscribe,
            ),
            (SessionPhase::Authenticating, SessionInput::PollTimeout)
            | (SessionPhase::Authenticating, SessionInput::OtherPacket) => if polls + 1
                >= HANDSHAKE_ATTEMPTS {
                (SessionPhase::Reconnecting, 0, SessionAction::AnnounceDisconnectedAndWait)
            } else {
                (SessionPhase::Authenticating, (polls + 1) as u32, SessionAction::Poll)
            },
            (SessionPhase::Subscribed, SessionInput::Ready) => (
                SessionPhase::Active,
                0,
                SessionAction::AnnounceConnected,
            ),
            (SessionPhase::Active, SessionInput::Report) => (
                SessionPhase::Active,
                polls,
                SessionAction::HandleReport,
            ),
            (SessionPhase::Active, SessionInput::Command) => (
                SessionPhase::Active,
                polls,
                SessionAction::PublishCommand,
            ),
            (SessionPhase::Reconnecting, SessionInput::DelayElapsed) => (
                SessionPhase::Connecting,
                0,
                SessionAction::OpenTransport,
            ),
            _ => (phase, polls, spec_pending(phase)),
        }
    }
}

/// The phase and polls after a sequence of inputs, taken in order.
pub open spec fn spec_after(phase: SessionPhase, polls: u32, inputs: Seq<SessionInput>) -> (
    SessionPhase,
    u32,
)
    decreases inputs.len(),
{
    if inputs.len() == 0 {
        (phase, polls)
    } else {
        let before = spec_after(phase, polls, inputs.drop_last());
        let next = spec_transition(before.0, before.1, inputs.last());
        (next.0, next.1)
    }
}

/// Whether an action announces a connection.
pub open spec fn spec_announces_connected(action: SessionAction) -> bool {
    action == SessionAction::AnnounceConnected
}

/// Whether an action announces a disconnection.
pub open spec fn spec_announces_disconnected(action: SessionAction) -> bool {
    action == SessionAction::AnnounceDisconnectedAndWait || action
        == SessionAction::AnnounceDisconnectedAndExit
}

/// The event that an action announces for the printer with the given
/// serial, if it announces one.
pub open spec fn spec_announcement(serial: String, action: SessionAction) -> Option<PrinterEvent> {
    if spec_announces_connected(action) {
        Some(PrinterEvent::Connected { serial })
    } else if spec_announces_disconnected(action) {
        Some(PrinterEvent::Disconnected { serial })
    } else {
        None
    }
}

/// A stopped session stays stopped and does nothing more.
pub proof fn lemma_stopped_is_final(polls: u32, inputs: Seq<SessionInput>)
    ensures
        spec_after(SessionPhase::Stopped, polls, inputs).0 == SessionPhase::Stopped,
    decreases inputs.len(),
{
    if inputs.len() > 0 {
        lemma_stopped_is_final(polls, inputs.drop_last());
    }
}

/// A stop ends the session from every phase, and the disconnection is
/// announced exactly where the session was active.
pub proof fn lemma_stop_ends(phase: SessionPhase, polls: u32)
    ensures
        spec_transition(phase, polls, SessionInput::Stop).0 == SessionPhase::Stopped,
        spec_announces_disconnected(spec_transition(phase, polls, SessionInput::Stop).2) == (phase
            == SessionPhase::Active),
        !spec_announces_connected(spec_transition(phase, polls, SessionInput::Stop).2),
{
}

/// Only a failure or a stop takes a session out of the steady state: no
/// report, well-formed or not, and no command does.
pub proof fn lemma_active_stays(polls: u32, input: SessionInput)
    requires
        input != SessionInput::Failure,
        input != SessionInput::Stop,
    ensures
        spec_transition(SessionPhase::Active, polls, input).0 == SessionPhase::Active,
        !spec_announces_disconnected(spec_transition(SessionPhase::Active, polls, input).2),
        !spec_announces_connected(spec_transition(SessionPhase::Active, polls, input).2),
{
}

/// A connection is announced exactly on entering the steady state.
pub proof fn lemma_connected_on_entering_active(
    phase: SessionPhase,
    polls: u32,
    input: SessionInput,
)
    ensures
        spec_announces_connected(spec_transition(phase, polls, input).2) == (phase
            != SessionPhase::Active && spec_transition(phase, polls, input).0
            == SessionPhase::Active),
{
}

/// A failure is followed by a new connect after the delay, whatever the
/// number of failures before.
pub proof fn lemma_failure_retries(phase: SessionPhase, polls: u32)
    requires
        phase != SessionPhase::Stopped,
        phase != SessionPhase::Reconnecting,
    ensures
        spec_after(phase, polls, seq![SessionInput::Failure, SessionInput::DelayElapsed]).0
            == SessionPhase::Connecting,
        spec_announces_disconnected(spec_transition(phase, polls, SessionInput::Failure).2),
{
    let inputs = seq![SessionInput::Failure, SessionInput::DelayElapsed];
    assert(inputs.drop_last() =~= seq![SessionInput::Failure]);
    assert(inputs.drop_last().drop_last() =~= Seq::<SessionInput>::empty());
    assert(spec_after(phase, polls, inputs.drop_last().drop_last()) == (phase, polls));
    assert(spec_after(phase, polls, inputs.drop_last()).0 == SessionPhase::Reconnecting);
}

/// Polls without an acknowledgement keep a session waiting until the
/// allowed number is used up, and the poll that uses it up fails the
/// connect.
pub proof fn lemma_handshake_bounded(polls: u32)
    requires
        polls < HANDSHAKE_ATTEMPTS,
    ensures
        polls + 1 < HANDSHAKE_ATTEMPTS ==> spec_transition(
            SessionPhase::Authenticating,
            polls,
            SessionInput::PollTimeout,
        ) == (SessionPhase::Authenticating, (polls + 1) as u32, SessionAction::Poll),
        polls + 1 == HANDSHAKE_ATTEMPTS ==> spec_transition(
            SessionPhase::Authenticating,
            polls,
            SessionInput::PollTimeout,
        ) == (SessionPhase::Reconnecting, 0u32, SessionAction::AnnounceDisconnectedAndWait),
{
}

/// Why a session could not publish.
#[derive(Debug, Clone, Copy, PartialEq, Eq, Structural)]
pub enum SessionError {
    /// The session has no acknowledged connection.
    NotConnected,
}

/// A request together with the channel it goes to.
#[derive(Debug, Clone)]
pub struct Publication {
    pub topic: String,
    pub request: WireRequest,
}

/// The session of one printer.
pub struct BambuMqttClient {
    config: PrinterConfig,
    phase: SessionPhase,
    polls: u32,
}

impl BambuMqttClient {
    /// The configuration, which never changes.
    pub closed spec fn spec_config(&self) -> PrinterConfig {
        self.config
    }

    /// The phase.
    pub closed spec fn spec_phase(&self) -> SessionPhase {
        self.phase
    }

    /// Polls used so far in the current handshake.
    pub closed spec fn spec_polls(&self) -> u32 {
        self.polls
    }

    /// A session that is about to connect.
    pub fn new(config: PrinterConfig) -> (session: Self)
        ensures
            session.spec_config() == config,
            session.spec_phase() == SessionPhase::Connecting,
            session.spec_polls() == 0,
    {
        BambuMqttClient { config, phase: SessionPhase::Connecting, polls: 0 }
    }

    /// The configuration.
    pub fn config(&self) -> (config: &PrinterConfig)
        ensures
            *config == self.spec_config(),
    {
        &self.config
    }

    /// The phase.
    pub fn phase(&self) -> (phase: SessionPhase)
        ensures
            phase == self.spec_phase(),
    {
        self.phase
    }

    /// What the session is busy with.
    pub fn pending(&self) -> (action: SessionAction)
        ensures
            action == spec_pending(self.spec_phase()),
    {
        match self.phase {
            SessionPhase::Connecting => SessionAction::OpenTransport,
            SessionPhase::Authenticating => SessionAction::Poll,
            SessionPhase::Subscribed => SessionAction::Subscribe,
            SessionPhase::Active => SessionAction::Serve,
            SessionPhase::Reconnecting => SessionAction::Wait,
            SessionPhase::Stopped => SessionAction::Exit,
        }
    }

    /// Takes in an input and says what to do next.
    pub fn step(&mut self, input: SessionInput) -> (action: SessionAction)
        ensures
            final(self).spec_config() == old(self).spec_config(),
            (final(self).spec_phase(), final(self).spec_polls(), action) == spec_transition(
                old(self).spec_phase(),
                old(self).spec_polls(),
                input,
            ),
    {
        let phase = self.phase;
        if phase == SessionPhase::Stopped {
            return SessionAction::Exit;
        }
        if input == SessionInput::Stop {
            self.phase = SessionPhase::Stopped;
            if phase == SessionPhase::Active {
                return SessionAction::AnnounceDisconnectedAndExit;
            }
            return SessionAction::Exit;
        }
        if input == SessionInput::Failure && phase != SessionPhase::Reconnecting {
            self.phase = SessionPhase::Reconnecting;
            self.polls = 0;
            return SessionAction::AnnounceDisconnectedAndWait;
        }
        match (phase, input) {
            (SessionPhase::Connecting, SessionInput::TransportOpened) => {
                self.phase = SessionPhase::Authenticating;
                self.polls = 0;
                SessionAction::Poll
            },
            (SessionPhase::Authenticating, SessionInput::ConnAck) => {
                self.phase = SessionPhase::Subscribed;
                self.polls = 0;
                SessionAction::Subscribe
            },
            (SessionPhase::Authenticating, SessionInput::PollTimeout)
            | (SessionPhase::Authenticating, SessionInput::OtherPacket) => {
                if self.polls >= HANDSHAKE_ATTEMPTS - 1 {
                    self.phase = SessionPhase::Reconnecting;
                    self.polls = 0;
                    SessionAction::AnnounceDisconnectedAndWait
                } else {
                    self.polls = self.polls + 1;
                    SessionAction::Poll
                }
            },
            (SessionPhase::Subscribed, SessionInput::Ready) => {
                self.phase = SessionPhase::Active;
                self.polls = 0;
                SessionAction::AnnounceConnected
            },
            (SessionPhase::Active, SessionInput::Report) => SessionAction::HandleReport,
            (SessionPhase::Active, SessionInput::Command) => SessionAction::PublishCommand,
            (SessionPhase::Reconnecting, SessionInput::DelayElapsed) => {
                self.phase = SessionPhase::Connecting;
                self.polls = 0;
                SessionAction::OpenTransport
            },
            _ => self.pending(),
        }
    }

    /// The event that an action announces, if it announces one.
    pub fn announcement(&self, action: SessionAction) -> (event: Option<PrinterEvent>)
        ensures
            event == spec_announcement(self.spec_config().serial, action),
    {
        match action {
            SessionAction::AnnounceConnected => Some(
                PrinterEvent::Connected { serial: self.config.serial.clone() },
            ),
            SessionAction::AnnounceDisconnectedAndWait
            | SessionAction::AnnounceDisconnectedAndExit => Some(
                PrinterEvent::Disconnected { serial: self.config.serial.clone() },
            ),
            _ => None,
        }
    }

    /// The event that a state report gives rise to.
    pub fn handle_print_message(&self, data: &PrintData) -> (event: PrinterEvent)
        ensures
            event matches PrinterEvent::StateUpdate { serial: s, state } && s
                == self.spec_config().serial && spec_state_of_report(state, *data),
    {
        PrinterEvent::StateUpdate {
            serial: self.config.serial.clone(),
            state: state_from_report(data),
        }
    }

    /// What a payload of the report channel gives rise to, once it was tried
    /// against the known shapes: a state report is a state update, and a
    /// version answer or a payload of no known shape is nothing.
    pub fn handle_message(&self, decoded: Option<&Message>) -> (event: Option<PrinterEvent>)
        ensures
            match decoded {
                Some(Message::Print(report)) => event matches Some(
                    PrinterEvent::StateUpdate { serial: s, state },
                ) && s == self.spec_config().serial && spec_state_of_report(state, report.print),
                _ => event.is_none(),
            },
    {
        match decoded {
            Some(Message::Print(report)) => Some(self.handle_print_message(&report.print)),
            _ => None,
        }
    }

    /// What a payload of the report channel gives rise to: a payload that
    /// has the shape of a state report is a state update with the snapshot
    /// of that report, and every other payload is nothing. `None` stands
    /// for a payload that is no tree of values at all.
    pub fn handle_payload(&self, payload: Option<&Json>) -> (event: Option<PrinterEvent>)
        ensures
            match payload {
                Some(value) => if Print::valid(*value) {
                    event matches Some(PrinterEvent::StateUpdate { serial: s, state }) && s
                        == self.spec_config().serial && exists|report: Print|
                        Print::decodes(*value, report) && spec_state_of_report(
                            state,
                            report.print,
                        )
                } else {
                    event.is_none()
                },
                None => event.is_none(),
            },
    {
        match payload {
            Some(value) => {
                let message = decode_message(value);
                let event = self.handle_message(message.as_ref());
                proof {
                    if Print::valid(*value) {
                        let report = message->Some_0->Print_0;
                        let state = event->Some_0->StateUpdate_state;
                        assert(Print::decodes(*value, report) && spec_state_of_report(
                            state,
                            report.print,
                        ));
                    }
                }
                event
            },
            None => None,
        }
    }

    /// The request for a command and the channel it goes to. A session
    /// publishes only over an acknowledged connection.
    pub fn send_command(&self, command: PrinterCommand) -> (publication: Result<
        Publication,
        SessionError,
    >)
        ensures
            publication.is_ok() == (self.spec_phase() == SessionPhase::Subscribed
                || self.spec_phase() == SessionPhase::Active),
            publication matches Ok(p) ==> p.topic@ == spec_request_topic(
                self.spec_config().serial@,
            ) && p.request@ == spec_encode_command(command@),
            publication matches Err(e) ==> e == SessionError::NotConnected,
    {
        if self.phase == SessionPhase::Subscribed || self.phase == SessionPhase::Active {
            Ok(
                Publication {
                    topic: request_topic(self.config.serial.as_str()),
                    request: encode_command(&command),
                },
            )
        } else {
            Err(SessionError::NotConnected)
        }
    }
}

} // verus!
