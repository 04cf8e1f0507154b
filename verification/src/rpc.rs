//! The remote command server: what each request does to the state cells and what is sent
//! back, and how the server goes on after a transport error.

use crate::angle::{
    degrees, lemma_clamped_idempotent, lemma_clamped_in_bounds, lemma_named_angles, Angle,
    DEG_45_BITS, DEG_90_BITS, NEG_45_BITS, ZERO_BITS,
};
use crate::cell::{BroadcastCell, CellState};
use crate::led::{set_arm_led, set_status_led, Indicators, Level};
use vstd::prelude::*;

verus! {

/// The lowest tilt that is commanded: 0 degrees.
pub open spec fn tilt_low() -> Angle {
    Angle { bits: ZERO_BITS }
}

/// The highest tilt that is commanded: 90 degrees.
pub open spec fn tilt_high() -> Angle {
    Angle { bits: DEG_90_BITS }
}

/// The lowest pan that is commanded: -45 degrees.
pub open spec fn pan_low() -> Angle {
    Angle { bits: NEG_45_BITS }
}

/// The highest pan that is commanded: 45 degrees.
pub open spec fn pan_high() -> Angle {
    Angle { bits: DEG_45_BITS }
}

/// The tilt that a request for `tilt` sets: `tilt` saturated to [0, 90] degrees.
pub open spec fn tilt_setpoint(tilt: Angle) -> Angle {
    tilt.clamped(tilt_low(), tilt_high())
}

/// The pan that a request for `pan` sets: `pan` saturated to [-45, 45] degrees.
pub open spec fn pan_setpoint(pan: Angle) -> Angle {
    pan.clamped(pan_low(), pan_high())
}

/// The angle that a measurement reports for a cell: the latest setpoint, or zero degrees
/// before the first.
pub open spec fn measured(latest: Option<Angle>) -> Angle {
    match latest {
        Some(angle) => angle,
        None => Angle { bits: ZERO_BITS },
    }
}

/// Saturates a requested tilt to [0, 90] degrees.
pub fn clamp_tilt(tilt: Angle) -> (setpoint: Angle)
    ensures
        setpoint == tilt_setpoint(tilt),
{
    tilt.clamp(Angle::from_bits(ZERO_BITS), Angle::from_bits(DEG_90_BITS))
}

/// Saturates a requested pan to [-45, 45] degrees.
pub fn clamp_pan(pan: Angle) -> (setpoint: Angle)
    ensures
        setpoint == pan_setpoint(pan),
{
    pan.clamp(Angle::from_bits(NEG_45_BITS), Angle::from_bits(DEG_45_BITS))
}

/// The acknowledgement of an `arm_led` request.
#[derive(Clone, Copy, Debug, PartialEq, Eq, Structural)]
pub struct ArmLedResponse {}

/// The acknowledgement of a `status_led` request.
#[derive(Clone, Copy, Debug, PartialEq, Eq, Structural)]
pub struct StatusLedResponse {}

/// The acknowledgement of a `move_deg` request.
#[derive(Clone, Copy, Debug, PartialEq, Eq, Structural)]
pub struct MoveDegResponse {}

/// The reply to a `measure_deg` request: the current setpoints.
#[derive(Clone, Copy, Debug, PartialEq, Eq, Structural)]
pub struct MeasureDegResponse {
    pub tilt: Angle,
    pub pan: Angle,
}

/// A request of the remote controller.
#[derive(Clone, Copy, Debug, PartialEq, Eq, Structural)]
pub enum Request {
    ArmLed { enabled: bool },
    StatusLed { enabled: bool },
    MoveDeg { tilt: Angle, pan: Angle },
    MeasureDeg,
}

/// The reply to a request, of the kind of the request.
#[derive(Clone, Copy, Debug, PartialEq, Eq, Structural)]
pub enum Response {
    ArmLed(ArmLedResponse),
    StatusLed(StatusLedResponse),
    MoveDeg(MoveDegResponse),
    MeasureDeg(MeasureDegResponse),
}

/// What the four state cells hold, as a mathematical value.
pub struct Setpoints {
    pub tilt: CellState<Angle>,
    pub pan: CellState<Angle>,
    pub arm: CellState<Level>,
    pub status: CellState<Level>,
}

impl Setpoints {
    /// Four cells that were never written.
    pub open spec fn initial() -> Setpoints {
        Setpoints {
            tilt: CellState::initial(),
            pan: CellState::initial(),
            arm: CellState::initial(),
            status: CellState::initial(),
        }
    }

    /// The cells after `request` was served.
    pub open spec fn after(self, request: Request) -> Setpoints {
        match request {
            Request::ArmLed { enabled } => Setpoints {
                arm: self.arm.write(Level::of(enabled)),
                ..self
            },
            Request::StatusLed { enabled } => Setpoints {
                status: self.status.write(Level::of(enabled)),
                ..self
            },
            Request::MoveDeg { tilt, pan } => Setpoints {
                tilt: self.tilt.write(tilt_setpoint(tilt)),
                pan: self.pan.write(pan_setpoint(pan)),
                ..self
            },
            Request::MeasureDeg => self,
        }
    }

    /// The reply to `request`, served on these cells.
    pub open spec fn reply(self, request: Request) -> Response {
        match request {
            Request::ArmLed { enabled } => Response::ArmLed(ArmLedResponse {  }),
            Request::StatusLed { enabled } => Response::StatusLed(StatusLedResponse {  }),
            Request::MoveDeg { tilt, pan } => Response::MoveDeg(MoveDegResponse {  }),
            Request::MeasureDeg => Response::MeasureDeg(
                MeasureDegResponse {
                    tilt: measured(self.tilt.latest),
                    pan: measured(self.pan.latest),
                },
            ),
        }
    }
}

/// Whatever number is asked for, the tilt that is set lies in [0, 90] degrees and the pan
/// in [-45, 45] degrees.
pub proof fn lemma_setpoints_in_range(tilt: Angle, pan: Angle)
    requires
        !tilt.is_nan(),
        !pan.is_nan(),
    ensures
        degrees(0) <= tilt_setpoint(tilt).units() <= degrees(90),
        degrees(-45) <= pan_setpoint(pan).units() <= degrees(45),
{
    lemma_named_angles();
    lemma_clamped_in_bounds(tilt, tilt_low(), tilt_high());
    lemma_clamped_in_bounds(pan, pan_low(), pan_high());
}

/// Saturating a setpoint again changes nothing.
pub proof fn lemma_setpoints_idempotent(tilt: Angle, pan: Angle)
    ensures
        tilt_setpoint(tilt_setpoint(tilt)) == tilt_setpoint(tilt),
        pan_setpoint(pan_setpoint(pan)) == pan_setpoint(pan),
{
    lemma_named_angles();
    lemma_clamped_idempotent(tilt, tilt_low(), tilt_high());
    lemma_clamped_idempotent(pan, pan_low(), pan_high());
}

/// A measurement that follows a move reports the saturated angles of that move; one that
/// no move came before reports zero degrees on both axes. No other request changes what
/// is measured.
pub proof fn lemma_measure_reports_last_move(cells: Setpoints, tilt: Angle, pan: Angle, enabled:
    bool)
    ensures
        cells.after(Request::MoveDeg { tilt, pan }).reply(Request::MeasureDeg)
            == Response::MeasureDeg(
            MeasureDegResponse { tilt: tilt_setpoint(tilt), pan: pan_setpoint(pan) },
        ),
        cells.tilt.latest is None && cells.pan.latest is None ==> cells.reply(
            Request::MeasureDeg,
        ) == Response::MeasureDeg(
            MeasureDegResponse { tilt: Angle { bits: ZERO_BITS }, pan: Angle { bits: ZERO_BITS } },
        ),
        cells.after(Request::ArmLed { enabled }).reply(Request::MeasureDeg) == cells.reply(
            Request::MeasureDeg,
        ),
        cells.after(Request::StatusLed { enabled }).reply(Request::MeasureDeg) == cells.reply(
            Request::MeasureDeg,
        ),
        cells.after(Request::MeasureDeg) == cells,
{
}

/// The command server with the four state cells, which it alone writes.
pub struct GimbalRpc {
    pub tilt_angle_deg_watch: BroadcastCell<Angle, 1>,
    pub pan_angle_deg_watch: BroadcastCell<Angle, 1>,
    pub leds: Indicators,
}

impl View for GimbalRpc {
    type V = Setpoints;

    open spec fn view(&self) -> Setpoints {
        Setpoints {
            tilt: self.tilt_angle_deg_watch@,
            pan: self.pan_angle_deg_watch@,
            arm: self.leds.arm@,
            status: self.leds.status@,
        }
    }
}

impl GimbalRpc {
    /// A server whose cells were never written.
    pub fn new() -> (rpc: Self)
        ensures
            rpc@ == Setpoints::initial(),
    {
        GimbalRpc {
            tilt_angle_deg_watch: BroadcastCell::new(),
            pan_angle_deg_watch: BroadcastCell::new(),
            leds: Indicators::new(),
        }
    }

    /// Switches the arm indicator on or off.
    pub fn arm_led(&mut self, enabled: bool) -> (response: ArmLedResponse)
        ensures
            final(self)@ == old(self)@.after(Request::ArmLed { enabled }),
            final(self).leds.status == old(self).leds.status,
            final(self).tilt_angle_deg_watch == old(self).tilt_angle_deg_watch,
            final(self).pan_angle_deg_watch == old(self).pan_angle_deg_watch,
    {
        set_arm_led(&mut self.leds, Level::from_enabled(enabled));
        ArmLedResponse {  }
    }

    /// Switches the status indicator on or off.
    pub fn status_led(&mut self, enabled: bool) -> (response: StatusLedResponse)
        ensures
            final(self)@ == old(self)@.after(Request::StatusLed { enabled }),
            final(self).leds.arm == old(self).leds.arm,
            final(self).tilt_angle_deg_watch == old(self).tilt_angle_deg_watch,
            final(self).pan_angle_deg_watch == old(self).pan_angle_deg_watch,
    {
        set_status_led(&mut self.leds, Level::from_enabled(enabled));
        StatusLedResponse {  }
    }

    /// Sets both angle setpoints, each saturated to the range of its axis: a tilt to
    /// [0, 90] degrees, a pan to [-45, 45] degrees. An angle out of range is not refused.
    pub fn move_deg(&mut self, tilt: Angle, pan: Angle) -> (response: MoveDegResponse)
        ensures
            final(self)@ == old(self)@.after(Request::MoveDeg { tilt, pan }),
            final(self).leds == old(self).leds,
    {
        let tilt = clamp_tilt(tilt);
        let pan = clamp_pan(pan);
        self.tilt_angle_deg_watch.write(tilt);
        self.pan_angle_deg_watch.write(pan);
        MoveDegResponse {  }
    }

    /// Reports the latest setpoints; an axis that was never set reads as zero degrees.
    pub fn measure_deg(&mut self) -> (response: MeasureDegResponse)
        ensures
            response.tilt == measured(old(self)@.tilt.latest),
            response.pan == measured(old(self)@.pan.latest),
            *final(self) == *old(self),
    {
        let tilt = match self.tilt_angle_deg_watch.read_latest() {
            Some(angle) => angle,
            None => Angle::from_bits(ZERO_BITS),
        };
        let pan = match self.pan_angle_deg_watch.read_latest() {
            Some(angle) => angle,
            None => Angle::from_bits(ZERO_BITS),
        };
        MeasureDegResponse { tilt, pan }
    }

    /// Serves one request: applies it to the cells and gives the reply to send.
    pub fn serve(&mut self, request: Request) -> (response: Response)
        ensures
            final(self)@ == old(self)@.after(request),
            response == old(self)@.reply(request),
    {
        match request {
            Request::ArmLed { enabled } => Response::ArmLed(self.arm_led(enabled)),
            Request::StatusLed { enabled } => Response::StatusLed(self.status_led(enabled)),
            Request::MoveDeg { tilt, pan } => Response::MoveDeg(self.move_deg(tilt, pan)),
            Request::MeasureDeg => Response::MeasureDeg(self.measure_deg()),
        }
    }
}

/// What the link handed to the server.
#[derive(Clone, Copy, Debug, PartialEq, Eq, Structural)]
pub enum LinkEvent {
    /// A request arrived whole.
    Received(Request),
    /// Receiving a request or sending a reply failed.
    TransportError,
}

/// What the server does next.
#[derive(Clone, Copy, Debug, PartialEq, Eq, Structural)]
pub enum ServerAction {
    /// Send this reply, then wait for the next request.
    Reply(Response),
    /// Report the error and serve again from the start. Nothing is sent again: the
    /// controller has to repeat what was not acknowledged.
    Restart,
}

impl Setpoints {
    /// The cells after the server has taken `event`: a request is applied, a transport
    /// error changes nothing.
    pub open spec fn on(self, event: LinkEvent) -> Setpoints {
        match event {
            LinkEvent::Received(request) => self.after(request),
            LinkEvent::TransportError => self,
        }
    }

    /// What the server does about `event`.
    pub open spec fn action(self, event: LinkEvent) -> ServerAction {
        match event {
            LinkEvent::Received(request) => ServerAction::Reply(self.reply(request)),
            LinkEvent::TransportError => ServerAction::Restart,
        }
    }

    /// The cells after the server has taken each of `events` in turn.
    pub open spec fn run(self, events: Seq<LinkEvent>) -> Setpoints
        decreases events.len(),
    {
        if events.len() == 0 {
            self
        } else {
            self.run(events.drop_last()).on(events.last())
        }
    }

    /// The cells after each of `requests` was served in turn.
    pub open spec fn serve_all(self, requests: Seq<Request>) -> Setpoints
        decreases requests.len(),
    {
        if requests.len() == 0 {
            self
        } else {
            self.serve_all(requests.drop_last()).after(requests.last())
        }
    }
}

/// The requests among `events`, in their order.
pub open spec fn requests_of(events: Seq<LinkEvent>) -> Seq<Request>
    decreases events.len(),
{
    if events.len() == 0 {
        Seq::empty()
    } else {
        match events.last() {
            LinkEvent::Received(request) => requests_of(events.drop_last()).push(request),
            LinkEvent::TransportError => requests_of(events.drop_last()),
        }
    }
}

/// Transport errors leave no trace. However many of them come, and wherever among the
/// requests, the cells end up as if the requests alone had been served, and the next
/// event is handled as if no error had ever happened.
pub proof fn lemma_errors_leave_no_trace(
    cells: Setpoints,
    events: Seq<LinkEvent>,
    next: LinkEvent,
)
    ensures
        cells.run(events) == cells.serve_all(requests_of(events)),
        cells.run(events).action(next) == cells.serve_all(requests_of(events)).action(next),
        cells.on(LinkEvent::TransportError) == cells,
        cells.action(LinkEvent::TransportError) == ServerAction::Restart,
    decreases events.len(),
{
    if events.len() > 0 {
        lemma_errors_leave_no_trace(cells, events.drop_last(), next);
        match events.last() {
            LinkEvent::Received(request) => {
                let before = requests_of(events.drop_last());
                assert(before.push(request).drop_last() =~= before);
            },
            LinkEvent::TransportError => {},
        }
    }
}

/// One turn of the server's task. A request is served and answered. A transport error
/// changes no cell and never ends the task: the server starts over at once, however many
/// errors came before.
pub fn rpc_task(rpc: &mut GimbalRpc, event: LinkEvent) -> (action: ServerAction)
    ensures
        action == old(rpc)@.action(event),
        final(rpc)@ == old(rpc)@.on(event),
        event is TransportError ==> *final(rpc) == *old(rpc),
{
    match event {
        LinkEvent::Received(request) => ServerAction::Reply(rpc.serve(request)),
        LinkEvent::TransportError => ServerAction::Restart,
    }
}

} // verus!
