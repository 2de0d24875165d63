//! Session setup as a step machine.
//!
//! Setup reads the first configuration, picks its first interface and that
//! interface's first descriptor, opens the device, asks about a kernel driver
//! (for the record only), activates the configuration, claims the interface,
//! activates the alternate setting and last checks that the endpoints the
//! protocol needs are there. Every step but the kernel-driver query is fatal
//! when it fails. The machine names the next operation; the transport loop
//! performs it and reports back.

use vstd::prelude::*;
use vstd::slice::slice_to_vec;
use crate::endpoints::{
    lemma_with_readback_needs_all_three, lemma_write_only_needs_both, RequiredEndpoints,
};
use crate::error::{ConfigurationFault, DescriptorFault, DriverError};

verus! {

/// Index of the configuration that setup reads.
pub const CONFIGURATION_INDEX: u8 = 0;

/// One descriptor of an interface: an alternate setting and its endpoints.
#[derive(Debug, PartialEq, Eq)]
pub struct AlternateSetting {
    pub interface_number: u8,
    pub setting_number: u8,
    /// Addresses of the endpoints this setting advertises, in descriptor order.
    pub endpoint_addresses: Vec<u8>,
}

/// An interface: its descriptors, in the order the device declares them.
#[derive(Debug, PartialEq, Eq)]
pub struct Interface {
    pub settings: Vec<AlternateSetting>,
}

/// A configuration descriptor, as far as setup reads it.
#[derive(Debug, PartialEq, Eq)]
pub struct Configuration {
    /// The value that activates this configuration.
    pub number: u8,
    pub interfaces: Vec<Interface>,
}

/// An `AlternateSetting` as a mathematical value.
pub struct AlternateSettingView {
    pub interface_number: u8,
    pub setting_number: u8,
    pub endpoint_addresses: Seq<u8>,
}

/// A `Configuration` as a mathematical value: each interface is the sequence of its descriptors.
pub struct ConfigurationView {
    pub number: u8,
    pub interfaces: Seq<Seq<AlternateSettingView>>,
}

impl View for AlternateSetting {
    type V = AlternateSettingView;

    open spec fn view(&self) -> AlternateSettingView {
        AlternateSettingView {
            interface_number: self.interface_number,
            setting_number: self.setting_number,
            endpoint_addresses: self.endpoint_addresses@,
        }
    }
}

impl View for Interface {
    type V = Seq<AlternateSettingView>;

    open spec fn view(&self) -> Seq<AlternateSettingView> {
        Seq::new(self.settings@.len(), |i: int| self.settings@[i]@)
    }
}

impl View for Configuration {
    type V = ConfigurationView;

    open spec fn view(&self) -> ConfigurationView {
        ConfigurationView {
            number: self.number,
            interfaces: Seq::new(self.interfaces@.len(), |i: int| self.interfaces@[i]@),
        }
    }
}

/// An established session: what was activated and claimed on the device.
#[derive(Debug, Clone, Copy, PartialEq, Eq, Structural)]
pub struct Session {
    /// The active configuration.
    pub configuration: u8,
    /// The claimed interface.
    pub interface: u8,
    /// The active alternate setting of that interface.
    pub setting: u8,
}

/// What setup has chosen from the configuration descriptor.
#[derive(Debug, PartialEq, Eq)]
pub struct SessionPlan {
    pub session: Session,
    /// The endpoint addresses of the chosen alternate setting.
    pub advertised: Vec<u8>,
}

/// A `SessionPlan` as a mathematical value.
pub struct SessionPlanView {
    pub session: Session,
    pub advertised: Seq<u8>,
}

impl View for SessionPlan {
    type V = SessionPlanView;

    open spec fn view(&self) -> SessionPlanView {
        SessionPlanView { session: self.session, advertised: self.advertised@ }
    }
}

/// The choice setup makes: the first interface and its first descriptor.
/// A configuration without an interface, or whose first interface has no
/// descriptor, is a descriptor error.
pub open spec fn select_spec(configuration: ConfigurationView) -> Result<
    SessionPlanView,
    DriverError,
> {
    if configuration.interfaces.len() == 0 {
        Err(DriverError::DescriptorError(DescriptorFault::NoInterface))
    } else if configuration.interfaces[0].len() == 0 {
        Err(DriverError::DescriptorError(DescriptorFault::NoInterfaceDescriptor))
    } else {
        let chosen = configuration.interfaces[0][0];
        Ok(
            SessionPlanView {
                session: Session {
                    configuration: configuration.number,
                    interface: chosen.interface_number,
                    setting: chosen.setting_number,
                },
                advertised: chosen.endpoint_addresses,
            },
        )
    }
}

/// Picks the first interface of `configuration` and its first descriptor.
pub fn select_setting(configuration: &Configuration) -> (selected: Result<SessionPlan, DriverError>)
    ensures
        match selected {
            Ok(plan) => select_spec(configuration@) == Ok::<SessionPlanView, DriverError>(plan@),
            Err(error) => select_spec(configuration@) == Err::<SessionPlanView, DriverError>(error),
        },
{
    if configuration.interfaces.len() == 0 {
        return Err(DriverError::DescriptorError(DescriptorFault::NoInterface));
    }
    let interface: &Interface = &configuration.interfaces[0];
    if interface.settings.len() == 0 {
        return Err(DriverError::DescriptorError(DescriptorFault::NoInterfaceDescriptor));
    }
    let chosen: &AlternateSetting = &interface.settings[0];
    Ok(
        SessionPlan {
            session: Session {
                configuration: configuration.number,
                interface: chosen.interface_number,
                setting: chosen.setting_number,
            },
            advertised: slice_to_vec(chosen.endpoint_addresses.as_slice()),
        },
    )
}

/// The operations of setup that follow the reading of the configuration.
#[derive(Debug, Clone, Copy, PartialEq, Eq, Structural)]
pub enum SetupStage {
    Opening,
    QueryingKernelDriver,
    SettingConfiguration,
    ClaimingInterface,
    SettingAlternate,
}

/// What the transport loop does next during setup.
#[derive(Debug, Clone, Copy, PartialEq, Eq, Structural)]
pub enum SetupAction {
    /// Read the configuration descriptor with this index.
    ReadConfiguration { index: u8 },
    /// Open the device.
    OpenDevice,
    /// Ask whether a kernel driver holds this interface; the answer is only reported.
    QueryKernelDriver { interface: u8 },
    /// Make this configuration the active one.
    SetConfiguration { number: u8 },
    /// Claim this interface exclusively.
    ClaimInterface { interface: u8 },
    /// Activate this alternate setting of this interface.
    SetAlternateSetting { interface: u8, setting: u8 },
    /// Setup is done: the session is established.
    Finish(Session),
    /// Setup has failed with this error.
    Abort(DriverError),
}

/// What the transport loop reports of the operation it was asked for.
#[derive(Debug, PartialEq, Eq)]
pub enum SetupEvent {
    /// The configuration descriptor was read.
    ConfigurationRead(Configuration),
    /// The operation succeeded.
    Completed,
    /// The operation failed.
    Failed,
}

/// A `SetupEvent` as a mathematical value.
pub enum SetupEventView {
    ConfigurationRead(ConfigurationView),
    Completed,
    Failed,
}

impl View for SetupEvent {
    type V = SetupEventView;

    open spec fn view(&self) -> SetupEventView {
        match self {
            SetupEvent::ConfigurationRead(configuration) => SetupEventView::ConfigurationRead(
                configuration@,
            ),
            SetupEvent::Completed => SetupEventView::Completed,
            SetupEvent::Failed => SetupEventView::Failed,
        }
    }
}

/// Where setup stands, as a mathematical value.
pub enum SetupStateView {
    /// The configuration descriptor is being read.
    ReadingConfiguration,
    /// The operation of this stage is under way, for this plan.
    Pending(SetupStage, SessionPlanView),
    /// The session is established.
    Ready(Session),
    /// Setup has failed.
    Failed(DriverError),
}

/// Setup as a mathematical value: what it must find, and where it stands.
pub struct SetupView {
    pub required: RequiredEndpoints,
    pub state: SetupStateView,
}

/// The error that a failure of the operation of `stage` is; the kernel-driver
/// query has none, for its failure is not an error.
pub open spec fn stage_fault(stage: SetupStage) -> Option<ConfigurationFault> {
    match stage {
        SetupStage::Opening => Some(ConfigurationFault::OpenFailed),
        SetupStage::QueryingKernelDriver => None,
        SetupStage::SettingConfiguration => Some(ConfigurationFault::SetConfigurationFailed),
        SetupStage::ClaimingInterface => Some(ConfigurationFault::ClaimFailed),
        SetupStage::SettingAlternate => Some(ConfigurationFault::AlternateSettingFailed),
    }
}

/// Setup before any report: the configuration descriptor is being read.
pub open spec fn initial_setup(required: RequiredEndpoints) -> SetupView {
    SetupView { required, state: SetupStateView::ReadingConfiguration }
}

/// What follows the operation of `stage` once it is over, for `plan`.
pub open spec fn after_stage(required: RequiredEndpoints, stage: SetupStage, plan: SessionPlanView) -> (
    SetupStateView,
    SetupAction,
) {
    match stage {
        SetupStage::Opening => (
            SetupStateView::Pending(SetupStage::QueryingKernelDriver, plan),
            SetupAction::QueryKernelDriver { interface: plan.session.interface },
        ),
        SetupStage::QueryingKernelDriver => (
            SetupStateView::Pending(SetupStage::SettingConfiguration, plan),
            SetupAction::SetConfiguration { number: plan.session.configuration },
        ),
        SetupStage::SettingConfiguration => (
            SetupStateView::Pending(SetupStage::ClaimingInterface, plan),
            SetupAction::ClaimInterface { interface: plan.session.interface },
        ),
        SetupStage::ClaimingInterface => (
            SetupStateView::Pending(SetupStage::SettingAlternate, plan),
            SetupAction::SetAlternateSetting {
                interface: plan.session.interface,
                setting: plan.session.setting,
            },
        ),
        SetupStage::SettingAlternate => if required.satisfied_by(plan.advertised) {
            (SetupStateView::Ready(plan.session), SetupAction::Finish(plan.session))
        } else {
            (
                SetupStateView::Failed(
                    DriverError::ConfigurationError(ConfigurationFault::MissingEndpoints),
                ),
                SetupAction::Abort(
                    DriverError::ConfigurationError(ConfigurationFault::MissingEndpoints),
                ),
            )
        },
    }
}

/// One move of setup: the state after `event` and what to do next.
///
/// While the configuration is being read, only a descriptor moves setup on;
/// the kernel-driver query moves on whatever is reported; every other
/// operation moves on when it completed and fails setup otherwise. Once setup
/// is ready or has failed, reports change nothing.
pub open spec fn setup_step_spec(setup: SetupView, event: SetupEventView) -> (
    SetupView,
    SetupAction,
) {
    match setup.state {
        SetupStateView::ReadingConfiguration => match event {
            SetupEventView::ConfigurationRead(configuration) => match select_spec(configuration) {
                Ok(plan) => (
                    SetupView { state: SetupStateView::Pending(SetupStage::Opening, plan), ..setup },
                    SetupAction::OpenDevice,
                ),
                Err(error) => (
                    SetupView { state: SetupStateView::Failed(error), ..setup },
                    SetupAction::Abort(error),
                ),
            },
            _ => (
                SetupView {
                    state: SetupStateView::Failed(
                        DriverError::DescriptorError(DescriptorFault::ConfigurationUnreadable),
                    ),
                    ..setup
                },
                SetupAction::Abort(
                    DriverError::DescriptorError(DescriptorFault::ConfigurationUnreadable),
                ),
            ),
        },
        SetupStateView::Pending(stage, plan) => match stage_fault(stage) {
            Some(fault) if !(event is Completed) => {
                let error = DriverError::ConfigurationError(fault);
                (
                    SetupView { state: SetupStateView::Failed(error), ..setup },
                    SetupAction::Abort(error),
                )
            },
            _ => {
                let moved = after_stage(setup.required, stage, plan);
                (SetupView { state: moved.0, ..setup }, moved.1)
            },
        },
        SetupStateView::Ready(session) => (setup, SetupAction::Finish(session)),
        SetupStateView::Failed(error) => (setup, SetupAction::Abort(error)),
    }
}

/// Where setup stands.
#[derive(Debug, PartialEq, Eq)]
pub enum SetupState {
    /// The configuration descriptor is being read.
    ReadingConfiguration,
    /// The operation of this stage is under way, for this plan.
    Pending(SetupStage, SessionPlan),
    /// The session is established.
    Ready(Session),
    /// Setup has failed.
    Failed(DriverError),
}

impl View for SetupState {
    type V = SetupStateView;

    open spec fn view(&self) -> SetupStateView {
        match self {
            SetupState::ReadingConfiguration => SetupStateView::ReadingConfiguration,
            SetupState::Pending(stage, plan) => SetupStateView::Pending(*stage, plan@),
            SetupState::Ready(session) => SetupStateView::Ready(*session),
            SetupState::Failed(error) => SetupStateView::Failed(*error),
        }
    }
}

/// A session setup in progress.
#[derive(Debug, PartialEq, Eq)]
pub struct Setup {
    required: RequiredEndpoints,
    state: SetupState,
}

impl View for Setup {
    type V = SetupView;

    closed spec fn view(&self) -> SetupView {
        SetupView { required: self.required, state: self.state@ }
    }
}

impl Setup {
    /// Begins setup for a device that must offer `required`, and asks for the
    /// first configuration descriptor.
    pub fn begin(required: RequiredEndpoints) -> (begun: (Setup, SetupAction))
        ensures
            begun.0@ == initial_setup(required),
            begun.1 == (SetupAction::ReadConfiguration { index: CONFIGURATION_INDEX }),
    {
        (
            Setup { required, state: SetupState::ReadingConfiguration },
            SetupAction::ReadConfiguration { index: CONFIGURATION_INDEX },
        )
    }

    /// Takes the report of the operation under way and says what to do next.
    pub fn advance(self, event: SetupEvent) -> (moved: (Setup, SetupAction))
        ensures
            (moved.0@, moved.1) == setup_step_spec(self@, event@),
    {
        let required: RequiredEndpoints = self.required;
        match self.state {
            SetupState::ReadingConfiguration => match event {
                SetupEvent::ConfigurationRead(configuration) => match select_setting(
                    &configuration,
                ) {
                    Ok(plan) => (
                        Setup { required, state: SetupState::Pending(SetupStage::Opening, plan) },
                        SetupAction::OpenDevice,
                    ),
                    Err(error) => (
                        Setup { required, state: SetupState::Failed(error) },
                        SetupAction::Abort(error),
                    ),
                },
                _ => {
                    let error: DriverError = DriverError::DescriptorError(
                        DescriptorFault::ConfigurationUnreadable,
                    );
                    (Setup { required, state: SetupState::Failed(error) }, SetupAction::Abort(error))
                },
            },
            SetupState::Pending(stage, plan) => {
                let completed: bool = match event {
                    SetupEvent::Completed => true,
                    _ => false,
                };
                match stage {
                    SetupStage::QueryingKernelDriver => {
                        let number: u8 = plan.session.configuration;
                        (
                            Setup {
                                required,
                                state: SetupState::Pending(SetupStage::SettingConfiguration, plan),
                            },
                            SetupAction::SetConfiguration { number },
                        )
                    },
                    SetupStage::Opening => if completed {
                        let interface: u8 = plan.session.interface;
                        (
                            Setup {
                                required,
                                state: SetupState::Pending(SetupStage::QueryingKernelDriver, plan),
                            },
                            SetupAction::QueryKernelDriver { interface },
                        )
                    } else {
                        Setup::fail(required, ConfigurationFault::OpenFailed)
                    },
                    SetupStage::SettingConfiguration => if completed {
                        let interface: u8 = plan.session.interface;
                        (
                            Setup {
                                required,
                                state: SetupState::Pending(SetupStage::ClaimingInterface, plan),
                            },
                            SetupAction::ClaimInterface { interface },
                        )
                    } else {
                        Setup::fail(required, ConfigurationFault::SetConfigurationFailed)
                    },
                    SetupStage::ClaimingInterface => if completed {
                        let interface: u8 = plan.session.interface;
                        let setting: u8 = plan.session.setting;
                        (
                            Setup {
                                required,
                                state: SetupState::Pending(SetupStage::SettingAlternate, plan),
                            },
                            SetupAction::SetAlternateSetting { interface, setting },
                        )
                    } else {
                        Setup::fail(required, ConfigurationFault::ClaimFailed)
                    },
                    SetupStage::SettingAlternate => if completed {
                        if required.is_satisfied_by(plan.advertised.as_slice()) {
                            (
                                Setup { required, state: SetupState::Ready(plan.session) },
                                SetupAction::Finish(plan.session),
                            )
                        } else {
                            Setup::fail(required, ConfigurationFault::MissingEndpoints)
                        }
                    } else {
                        Setup::fail(required, ConfigurationFault::AlternateSettingFailed)
                    },
                }
            },
            SetupState::Ready(session) => (
                Setup { required, state: SetupState::Ready(session) },
                SetupAction::Finish(session),
            ),
            SetupState::Failed(error) => (
                Setup { required, state: SetupState::Failed(error) },
                SetupAction::Abort(error),
            ),
        }
    }

    fn fail(required: RequiredEndpoints, fault: ConfigurationFault) -> (failed: (
        Setup,
        SetupAction,
    ))
        ensures
            failed.0@ == (SetupView {
                required,
                state: SetupStateView::Failed(DriverError::ConfigurationError(fault)),
            }),
            failed.1 == SetupAction::Abort(DriverError::ConfigurationError(fault)),
    {
        let error: DriverError = DriverError::ConfigurationError(fault);
        (Setup { required, state: SetupState::Failed(error) }, SetupAction::Abort(error))
    }

    /// The endpoints this setup must find.
    pub fn required(&self) -> (required: RequiredEndpoints)
        ensures
            required == self@.required,
    {
        self.required
    }

    /// The established session, once setup is ready.
    pub fn session(&self) -> (session: Option<Session>)
        ensures
            session == match self@.state {
                SetupStateView::Ready(established) => Some(established),
                _ => None::<Session>,
            },
    {
        match &self.state {
            SetupState::Ready(established) => Some(*established),
            _ => None,
        }
    }

    /// The error setup has failed with, if it has.
    pub fn failure(&self) -> (failure: Option<DriverError>)
        ensures
            failure == match self@.state {
                SetupStateView::Failed(error) => Some(error),
                _ => None::<DriverError>,
            },
    {
        match &self.state {
            SetupState::Failed(error) => Some(*error),
            _ => None,
        }
    }
}

/// Where setup stands once `events` were reported to it, in order.
pub open spec fn setup_state_after(setup: SetupView, events: Seq<SetupEventView>) -> SetupView
    decreases events.len(),
{
    if events.len() == 0 {
        setup
    } else {
        setup_state_after(setup_step_spec(setup, events[0]).0, events.drop_first())
    }
}

/// What setup asked for in answer to `events`, one action for each.
pub open spec fn setup_actions_after(setup: SetupView, events: Seq<SetupEventView>) -> Seq<
    SetupAction,
>
    decreases events.len(),
{
    if events.len() == 0 {
        Seq::empty()
    } else {
        let moved = setup_step_spec(setup, events[0]);
        seq![moved.1] + setup_actions_after(moved.0, events.drop_first())
    }
}

/// Number of reports that stand between the operation of `stage` and the end of setup.
pub open spec fn reports_left(stage: SetupStage) -> nat {
    match stage {
        SetupStage::Opening => 5,
        SetupStage::QueryingKernelDriver => 4,
        SetupStage::SettingConfiguration => 3,
        SetupStage::ClaimingInterface => 2,
        SetupStage::SettingAlternate => 1,
    }
}

/// Setup that is ready or has failed stays so, whatever is reported to it.
pub proof fn lemma_ended_setup_stays(setup: SetupView, events: Seq<SetupEventView>)
    requires
        setup.state is Ready || setup.state is Failed,
    ensures
        setup_state_after(setup, events) == setup,
    decreases events.len(),
{
    if events.len() > 0 {
        lemma_ended_setup_stays(setup, events.drop_first());
    }
}

/// From an operation under way, setup keeps its plan and its requirement; it
/// can end ready only with the plan's session and only when the plan offers
/// every required endpoint; it can fail only with a configuration error; and
/// it has ended once as many reports came in as operations were left.
proof fn lemma_pending_setup_ends(
    setup: SetupView,
    stage: SetupStage,
    plan: SessionPlanView,
    events: Seq<SetupEventView>,
)
    requires
        setup.state == SetupStateView::Pending(stage, plan),
    ensures
        setup_state_after(setup, events).required == setup.required,
        match setup_state_after(setup, events).state {
            SetupStateView::ReadingConfiguration => false,
            SetupStateView::Pending(later, kept) => kept == plan && events.len() < reports_left(
                stage,
            ),
            SetupStateView::Ready(session) => {
                &&& session == plan.session
                &&& setup.required.satisfied_by(plan.advertised)
                &&& events.len() >= reports_left(stage)
            },
            SetupStateView::Failed(error) => error is ConfigurationError,
        },
    decreases events.len(),
{
    if events.len() > 0 {
        let moved = setup_step_spec(setup, events[0]).0;
        let rest = events.drop_first();
        match moved.state {
            SetupStateView::Pending(later, kept) => {
                lemma_pending_setup_ends(moved, later, kept, rest);
            },
            _ => {
                lemma_ended_setup_stays(moved, rest);
            },
        }
    }
}

/// Setup ends ready only when the configuration that was read offers every
/// required endpoint in its first interface's first descriptor, and then the
/// session is the one chosen from that descriptor. Six reports at least have
/// come in by then: no step was left out.
pub proof fn lemma_ready_only_with_required_endpoints(
    required: RequiredEndpoints,
    events: Seq<SetupEventView>,
)
    ensures
        setup_state_after(initial_setup(required), events).state matches SetupStateView::Ready(
            session,
        ) ==> {
            &&& events.len() >= 6
            &&& events[0] matches SetupEventView::ConfigurationRead(configuration)
            &&& select_spec(configuration) matches Ok(plan)
            &&& plan.session == session
            &&& required.satisfied_by(plan.advertised)
        },
{
    let begun = initial_setup(required);
    if events.len() > 0 {
        let moved = setup_step_spec(begun, events[0]).0;
        let rest = events.drop_first();
        match moved.state {
            SetupStateView::Pending(stage, plan) => {
                lemma_pending_setup_ends(moved, stage, plan, rest);
            },
            _ => {
                lemma_ended_setup_stays(moved, rest);
            },
        }
    }
}

/// When the chosen descriptor lacks a required endpoint, setup never ends
/// ready, and once every step has reported it has failed with a
/// configuration error.
pub proof fn lemma_missing_endpoints_fail_setup(
    required: RequiredEndpoints,
    configuration: ConfigurationView,
    plan: SessionPlanView,
    events: Seq<SetupEventView>,
)
    requires
        events.len() > 0,
        events[0] == SetupEventView::ConfigurationRead(configuration),
        select_spec(configuration) == Ok::<SessionPlanView, DriverError>(plan),
        !required.satisfied_by(plan.advertised),
    ensures
        !(setup_state_after(initial_setup(required), events).state is Ready),
        events.len() >= 6 ==> (setup_state_after(
            initial_setup(required),
            events,
        ).state matches SetupStateView::Failed(error) && error is ConfigurationError),
{
    let moved = setup_step_spec(initial_setup(required), events[0]).0;
    lemma_pending_setup_ends(moved, SetupStage::Opening, plan, events.drop_first());
}

/// With the three endpoints required, a chosen descriptor that lacks any one
/// of `0x01`, `0x04` and `0x88` fails setup with a configuration error.
pub proof fn lemma_setup_needs_all_three_endpoints(
    configuration: ConfigurationView,
    plan: SessionPlanView,
    events: Seq<SetupEventView>,
    absent: u8,
)
    requires
        events.len() >= 6,
        events[0] == SetupEventView::ConfigurationRead(configuration),
        select_spec(configuration) == Ok::<SessionPlanView, DriverError>(plan),
        absent == 0x01 || absent == 0x04 || absent == 0x88,
        !plan.advertised.contains(absent),
    ensures
        setup_state_after(
            initial_setup(RequiredEndpoints::with_readback_spec()),
            events,
        ).state matches SetupStateView::Failed(error) && error is ConfigurationError,
{
    lemma_with_readback_needs_all_three(plan.advertised);
    lemma_missing_endpoints_fail_setup(
        RequiredEndpoints::with_readback_spec(),
        configuration,
        plan,
        events,
    );
}

/// With command and data endpoints required, a chosen descriptor that lacks
/// `0x01` or `0x04` fails setup with a configuration error.
pub proof fn lemma_setup_needs_both_write_endpoints(
    configuration: ConfigurationView,
    plan: SessionPlanView,
    events: Seq<SetupEventView>,
    absent: u8,
)
    requires
        events.len() >= 6,
        events[0] == SetupEventView::ConfigurationRead(configuration),
        select_spec(configuration) == Ok::<SessionPlanView, DriverError>(plan),
        absent == 0x01 || absent == 0x04,
        !plan.advertised.contains(absent),
    ensures
        setup_state_after(
            initial_setup(RequiredEndpoints::write_only_spec()),
            events,
        ).state matches SetupStateView::Failed(error) && error is ConfigurationError,
{
    lemma_write_only_needs_both(plan.advertised);
    lemma_missing_endpoints_fail_setup(
        RequiredEndpoints::write_only_spec(),
        configuration,
        plan,
        events,
    );
}

/// When the descriptor is usable, offers what is required, and every fatal
/// operation completes, setup asks for its operations in their fixed order
/// and ends ready with the chosen session. What the kernel-driver query
/// reports makes no difference.
pub proof fn lemma_clean_setup_establishes_session(
    required: RequiredEndpoints,
    configuration: ConfigurationView,
    plan: SessionPlanView,
    query_report: SetupEventView,
)
    requires
        select_spec(configuration) == Ok::<SessionPlanView, DriverError>(plan),
        required.satisfied_by(plan.advertised),
    ensures
        ({
            let events = seq![
                SetupEventView::ConfigurationRead(configuration),
                SetupEventView::Completed,
                query_report,
                SetupEventView::Completed,
                SetupEventView::Completed,
                SetupEventView::Completed,
            ];
            &&& setup_state_after(initial_setup(required), events).state == SetupStateView::Ready(
                plan.session,
            )
            &&& setup_actions_after(initial_setup(required), events) == seq![
                SetupAction::OpenDevice,
                SetupAction::QueryKernelDriver { interface: plan.session.interface },
                SetupAction::SetConfiguration { number: plan.session.configuration },
                SetupAction::ClaimInterface { interface: plan.session.interface },
                SetupAction::SetAlternateSetting {
                    interface: plan.session.interface,
                    setting: plan.session.setting,
                },
                SetupAction::Finish(plan.session),
            ]
        }),
{
    let e0 = seq![
        SetupEventView::ConfigurationRead(configuration),
        SetupEventView::Completed,
        query_report,
        SetupEventView::Completed,
        SetupEventView::Completed,
        SetupEventView::Completed,
    ];
    let e1 = e0.drop_first();
    let e2 = e1.drop_first();
    let e3 = e2.drop_first();
    let e4 = e3.drop_first();
    let e5 = e4.drop_first();
    let e6 = e5.drop_first();
    let s0 = initial_setup(required);
    let m1 = setup_step_spec(s0, e0[0]);
    let m2 = setup_step_spec(m1.0, e1[0]);
    let m3 = setup_step_spec(m2.0, e2[0]);
    let m4 = setup_step_spec(m3.0, e3[0]);
    let m5 = setup_step_spec(m4.0, e4[0]);
    let m6 = setup_step_spec(m5.0, e5[0]);
    assert(e6.len() == 0);
    assert(setup_state_after(m6.0, e6) == m6.0);
    assert(setup_state_after(m5.0, e5) == m6.0);
    assert(setup_state_after(m4.0, e4) == m6.0);
    assert(setup_state_after(m3.0, e3) == m6.0);
    assert(setup_state_after(m2.0, e2) == m6.0);
    assert(setup_state_after(m1.0, e1) == m6.0);
    assert(setup_actions_after(m6.0, e6) =~= Seq::<SetupAction>::empty());
    assert(setup_actions_after(m5.0, e5) =~= seq![m6.1]);
    assert(setup_actions_after(m4.0, e4) =~= seq![m5.1, m6.1]);
    assert(setup_actions_after(m3.0, e3) =~= seq![m4.1, m5.1, m6.1]);
    assert(setup_actions_after(m2.0, e2) =~= seq![m3.1, m4.1, m5.1, m6.1]);
    assert(setup_actions_after(m1.0, e1) =~= seq![m2.1, m3.1, m4.1, m5.1, m6.1]);
    assert(setup_actions_after(s0, e0) =~= seq![m1.1, m2.1, m3.1, m4.1, m5.1, m6.1]);
}

} // verus!
