use ad9959_usb::endpoints::RequiredEndpoints;
use ad9959_usb::error::{ConfigurationFault, DescriptorFault, DriverError};
use ad9959_usb::setup::{
    select_setting, AlternateSetting, Configuration, Interface, Session, Setup, SetupAction,
    SetupEvent,
};

fn configuration(endpoints: &[u8]) -> Configuration {
    Configuration {
        number: 1,
        interfaces: vec![
            Interface {
                settings: vec![
                    AlternateSetting {
                        interface_number: 0,
                        setting_number: 0,
                        endpoint_addresses: endpoints.to_vec(),
                    },
                    AlternateSetting {
                        interface_number: 0,
                        setting_number: 1,
                        endpoint_addresses: vec![0x01, 0x04, 0x88],
                    },
                ],
            },
            Interface {
                settings: vec![AlternateSetting {
                    interface_number: 1,
                    setting_number: 0,
                    endpoint_addresses: vec![0x01, 0x04, 0x88],
                }],
            },
        ],
    }
}

/// Runs setup against a transport whose n-th operation after the descriptor
/// read ends as the n-th flag says; returns every action asked for.
fn run(required: RequiredEndpoints, read: SetupEvent, completes: &[bool]) -> Vec<SetupAction> {
    let (mut setup, first) = Setup::begin(required);
    let mut asked = vec![first];
    let (next, action) = setup.advance(read);
    setup = next;
    asked.push(action);
    let mut reported = 0;
    while !matches!(asked[asked.len() - 1], SetupAction::Finish(_) | SetupAction::Abort(_)) {
        let event = if completes[reported] { SetupEvent::Completed } else { SetupEvent::Failed };
        reported += 1;
        let (next, action) = setup.advance(event);
        setup = next;
        asked.push(action);
    }
    asked
}

#[test]
fn selects_first_interface_and_first_descriptor() {
    let mut described = configuration(&[0x81, 0x02]);
    described.number = 3;
    described.interfaces[0].settings[0].interface_number = 5;
    described.interfaces[0].settings[0].setting_number = 2;
    let plan = select_setting(&described).unwrap();
    assert_eq!(plan.session, Session { configuration: 3, interface: 5, setting: 2 });
    assert_eq!(plan.advertised, vec![0x81, 0x02]);
}

#[test]
fn configuration_without_interface_is_a_descriptor_error() {
    let described = Configuration { number: 1, interfaces: vec![] };
    assert_eq!(
        select_setting(&described),
        Err(DriverError::DescriptorError(DescriptorFault::NoInterface))
    );
}

#[test]
fn interface_without_descriptor_is_a_descriptor_error() {
    let described = Configuration { number: 1, interfaces: vec![Interface { settings: vec![] }] };
    assert_eq!(
        select_setting(&described),
        Err(DriverError::DescriptorError(DescriptorFault::NoInterfaceDescriptor))
    );
}

#[test]
fn clean_setup_asks_for_each_operation_in_order() {
    let asked = run(
        RequiredEndpoints::with_readback(),
        SetupEvent::ConfigurationRead(configuration(&[0x01, 0x04, 0x88])),
        &[true, true, true, true, true],
    );
    let session = Session { configuration: 1, interface: 0, setting: 0 };
    assert_eq!(
        asked,
        vec![
            SetupAction::ReadConfiguration { index: 0 },
            SetupAction::OpenDevice,
            SetupAction::QueryKernelDriver { interface: 0 },
            SetupAction::SetConfiguration { number: 1 },
            SetupAction::ClaimInterface { interface: 0 },
            SetupAction::SetAlternateSetting { interface: 0, setting: 0 },
            SetupAction::Finish(session),
        ]
    );
}

#[test]
fn failed_kernel_driver_query_does_not_stop_setup() {
    let asked = run(
        RequiredEndpoints::with_readback(),
        SetupEvent::ConfigurationRead(configuration(&[0x01, 0x04, 0x88])),
        &[true, false, true, true, true],
    );
    assert_eq!(asked.len(), 7);
    assert_eq!(
        asked[6],
        SetupAction::Finish(Session { configuration: 1, interface: 0, setting: 0 })
    );
}

#[test]
fn missing_endpoint_fails_setup_after_the_alternate_setting() {
    let missing = SetupAction::Abort(DriverError::ConfigurationError(
        ConfigurationFault::MissingEndpoints,
    ));
    for advertised in [vec![0x04, 0x88], vec![0x01, 0x88], vec![0x01, 0x04], vec![]] {
        let asked = run(
            RequiredEndpoints::with_readback(),
            SetupEvent::ConfigurationRead(configuration(&advertised)),
            &[true, true, true, true, true],
        );
        assert_eq!(asked.len(), 7);
        assert_eq!(asked[5], SetupAction::SetAlternateSetting { interface: 0, setting: 0 });
        assert_eq!(asked[6], missing);
    }
}

#[test]
fn two_endpoint_setup_needs_the_data_endpoint() {
    let asked = run(
        RequiredEndpoints::write_only(),
        SetupEvent::ConfigurationRead(configuration(&[0x01, 0x88])),
        &[true, true, true, true, true],
    );
    assert_eq!(
        asked[6],
        SetupAction::Abort(DriverError::ConfigurationError(ConfigurationFault::MissingEndpoints))
    );
    let asked = run(
        RequiredEndpoints::write_only(),
        SetupEvent::ConfigurationRead(configuration(&[0x01, 0x04])),
        &[true, true, true, true, true],
    );
    assert_eq!(
        asked[6],
        SetupAction::Finish(Session { configuration: 1, interface: 0, setting: 0 })
    );
}

#[test]
fn each_fatal_step_fails_setup_with_its_own_fault() {
    let cases = [
        (0usize, ConfigurationFault::OpenFailed),
        (2, ConfigurationFault::SetConfigurationFailed),
        (3, ConfigurationFault::ClaimFailed),
        (4, ConfigurationFault::AlternateSettingFailed),
    ];
    for (failing, fault) in cases {
        let mut completes = [true; 5];
        completes[failing] = false;
        let asked = run(
            RequiredEndpoints::with_readback(),
            SetupEvent::ConfigurationRead(configuration(&[0x01, 0x04, 0x88])),
            &completes,
        );
        assert_eq!(asked.len(), failing + 3);
        assert_eq!(asked[failing + 2], SetupAction::Abort(DriverError::ConfigurationError(fault)));
    }
}

#[test]
fn unreadable_configuration_is_a_descriptor_error() {
    let asked = run(RequiredEndpoints::with_readback(), SetupEvent::Failed, &[]);
    assert_eq!(
        asked,
        vec![
            SetupAction::ReadConfiguration { index: 0 },
            SetupAction::Abort(DriverError::DescriptorError(
                DescriptorFault::ConfigurationUnreadable
            )),
        ]
    );
}

#[test]
fn unusable_configuration_fails_before_the_device_is_opened() {
    let asked = run(
        RequiredEndpoints::with_readback(),
        SetupEvent::ConfigurationRead(Configuration { number: 1, interfaces: vec![] }),
        &[],
    );
    assert_eq!(
        asked,
        vec![
            SetupAction::ReadConfiguration { index: 0 },
            SetupAction::Abort(DriverError::DescriptorError(DescriptorFault::NoInterface)),
        ]
    );
}

#[test]
fn ended_setup_does_not_move() {
    let (setup, _first) = Setup::begin(RequiredEndpoints::with_readback());
    assert_eq!(setup.session(), None);
    assert_eq!(setup.failure(), None);
    assert_eq!(setup.required(), RequiredEndpoints::with_readback());
    let (setup, _action) = setup.advance(SetupEvent::Failed);
    let error = DriverError::DescriptorError(DescriptorFault::ConfigurationUnreadable);
    assert_eq!(setup.failure(), Some(error));
    let (setup, action) = setup.advance(SetupEvent::Completed);
    assert_eq!(action, SetupAction::Abort(error));
    assert_eq!(setup.failure(), Some(error));
    assert_eq!(setup.session(), None);

    let (mut setup, _first) = Setup::begin(RequiredEndpoints::with_readback());
    setup = setup.advance(SetupEvent::ConfigurationRead(configuration(&[0x01, 0x04, 0x88]))).0;
    for _ in 0..5 {
        setup = setup.advance(SetupEvent::Completed).0;
    }
    let session = Session { configuration: 1, interface: 0, setting: 0 };
    assert_eq!(setup.session(), Some(session));
    let (setup, action) = setup.advance(SetupEvent::Failed);
    assert_eq!(action, SetupAction::Finish(session));
    assert_eq!(setup.session(), Some(session));
}
