use couch_gui::camera::{
    built_in_message, final_status, package_message, package_stream, target, unavailable_message,
    CameraTarget, Cameras, Failure, PackageFailure, Status, StreamEvent, StreamStage, StreamStep,
    Surroundings,
};
use couch_gui::commands::{PluginCode, PluginFailure};
use couch_gui::model::{
    ChildComponent, ChildSnapshot, Config, Device, Icon, Integration, Room, RowKey, RowKeys,
};

#[allow(dead_code)]
fn text(s: &str) -> String {
    s.to_string()
}

#[allow(dead_code)]
fn no_keys() -> RowKeys {
    let none = RowKey { supported: false, repeats: false };
    RowKeys {
        volume_up: none,
        volume_down: none,
        mute: none,
        toggle: false,
        power_on: false,
        power_off: false,
        power_repeats: false,
    }
}

#[allow(dead_code)]
fn bare_device(id: &str, name: &str) -> Device {
    Device {
        id: text(id),
        name: text(name),
        icon: Icon::Other(0),
        connection: None,
        integration: None,
        network: None,
        identity: None,
        component: None,
        ir: false,
        bluetooth: None,
        can_toggle: false,
        player: false,
        has_screen: false,
        keys: no_keys(),
    }
}

#[allow(dead_code)]
fn room_of(id: &str, name: &str, devices: Vec<Device>) -> Room {
    Room {
        id: text(id),
        name: text(name),
        icon: Icon::Other(0),
        summary: String::new(),
        detail: String::new(),
        devices,
    }
}

#[allow(dead_code)]
fn empty_config() -> Config {
    Config {
        areas: vec![],
        connections: vec![],
        rooms: vec![],
        activities: vec![],
        scenes: vec![],
    }
}

fn front_yard() -> Device {
    let mut device = bare_device("front-yard", "Front yard");
    device.connection = Some(text("front-nvr"));
    device.integration = Some(Integration::Plugin {
        connection_id: text("front-nvr"),
        resource_id: text("camera-1"),
        child: Some(ChildSnapshot { light: None, cover: None, climate: false }),
        actions: vec![],
    });
    device.component = Some(ChildComponent::Camera);
    device
}

#[test]
fn a_protocol_4_camera_child_opens_the_native_camera_screen() {
    assert!(matches!(
        target(&front_yard()),
        Some(CameraTarget::Package { connection, resource })
            if connection == "front-nvr" && resource == "camera-1"
    ));
}

#[test]
fn a_camera_is_named_by_its_connection_and_its_own_name() {
    let mut protect = bare_device("gate", "Gate");
    protect.integration = Some(Integration::UnifiProtect { camera: text("nvr/cam/1") });
    assert!(matches!(
        target(&protect),
        Some(CameraTarget::BuiltIn { connection, resource })
            if connection == "nvr" && resource == "cam/1"
    ));
    protect.integration = Some(Integration::UnifiProtect { camera: text("cam") });
    assert!(target(&protect).is_none());
    let mut light = front_yard();
    light.component = Some(ChildComponent::Light);
    assert!(target(&light).is_none());
    assert!(target(&bare_device("tv", "TV")).is_none());
}

#[test]
fn camera_failures_name_the_actionable_stage_without_secrets() {
    assert!(unavailable_message(Some(Failure::Descriptor { not_enabled: true }))
        .contains("low-quality"));
    assert!(unavailable_message(Some(Failure::Decoder)).contains("decoder"));
    assert!(unavailable_message(Some(Failure::Media)).contains("secure"));
}

#[test]
fn a_stream_says_how_it_goes() {
    assert_eq!(built_in_message(Status::Connecting, None), "Connecting securely…");
    assert_eq!(
        built_in_message(Status::Playing, None),
        "LIVE · Low quality · View closes after 60 seconds"
    );
    assert_eq!(
        built_in_message(Status::Unavailable, Some(Failure::Setup)),
        "Reconnect this NVR in the Couch web app."
    );
    let open = |code, reason: Option<&str>| {
        Some(PackageFailure::Open(PluginFailure {
            code,
            sentence: text("x"),
            reason: reason.map(text),
        }))
    };
    let said = |failure| package_message(Status::Unavailable, &failure);
    assert_eq!(
        said(open(PluginCode::Unpaired, Some("Pair it"))),
        "Reconnect this NVR in the Couch web app."
    );
    assert_eq!(said(open(PluginCode::Rejected, Some("Camera is off"))), "Camera is off");
    assert_eq!(
        said(open(PluginCode::Rejected, Some(""))),
        "Could not open this camera integration."
    );
    assert_eq!(said(Some(PackageFailure::Decoder)), "The camera decoder is unavailable.");
    assert_eq!(
        said(Some(PackageFailure::Stream(PluginCode::Timeout))),
        "The camera stream timed out."
    );
    assert_eq!(
        said(Some(PackageFailure::Stream(PluginCode::Busy))),
        "The camera stream stopped."
    );
    assert_eq!(said(None), "Camera unavailable.");
    assert_eq!(
        package_message(Status::Ended, &None),
        "View ended. Go back and open the camera to watch again."
    );
    assert_eq!(final_status(false, false, 60000, 60000), Status::Ended);
    assert_eq!(final_status(false, true, 0, 60000), Status::Ended);
    assert_eq!(final_status(false, false, 0, 60000), Status::Unavailable);
}

#[test]
fn a_stream_lives_and_ends_with_its_screen() {
    let mut config = empty_config();
    config.rooms.push(room_of("out", "Outside", vec![front_yard()]));
    let seen = Surroundings {
        awake: true,
        shown: true,
        settings: false,
        dock_clock: false,
        serial: Some(1),
    };
    let mut c = Cameras::new();
    c.open(text("device:front-yard"));
    let plan = c.poll(seen, Some(&config));
    assert!(matches!(plan.start, Some(CameraTarget::Package { .. })));
    assert!(!plan.stop && plan.draw && c.playing);
    c.open(text("device:front-yard"));
    let plan = c.poll(seen, Some(&config));
    assert!(plan.stop && plan.start.is_some(), "one stream at a time");
    let plan = c.poll(Surroundings { serial: Some(2), ..seen }, Some(&config));
    assert!(plan.draw && c.navigation_pending(), "another configuration closes it");
    let plan = c.poll(Surroundings { serial: Some(2), ..seen }, Some(&config));
    assert!(plan.close && plan.stop && plan.clear && !c.playing);
    c.poll(Surroundings { shown: false, ..seen }, Some(&config));
    assert!(!c.navigation_pending());
    c.open(text("device:gone"));
    let plan = c.poll(seen, Some(&config));
    assert!(plan.not_set_up && plan.start.is_none() && !c.playing);
    c.open(text("device:front-yard"));
    c.poll(seen, Some(&config));
    c.not_started();
    assert!(!c.playing);
    c.open(text("device:front-yard"));
    let plan = c.poll(Surroundings { awake: false, ..seen }, Some(&config));
    assert!(plan.start.is_none() && plan.clear && c.navigation_pending());
    c.back();
    assert!(c.poll(Surroundings { shown: false, ..seen }, None).close);
}

#[test]
fn a_packages_records_reach_the_decoder_until_the_view_is_left() {
    let step = |stage, event, stopped| package_stream(stage, event, stopped);
    let go = |step: StreamStep| match step {
        StreamStep::Go(stage) => stage,
        other => panic!("{other:?}"),
    };
    assert_eq!(go(step(StreamStage::Opening, StreamEvent::Ready, true)), StreamStage::Arming);
    assert_eq!(go(step(StreamStage::Arming, StreamEvent::Ready, false)), StreamStage::Decoding);
    assert_eq!(go(step(StreamStage::Decoding, StreamEvent::Ready, false)), StreamStage::Reading);
    assert_eq!(go(step(StreamStage::Reading, StreamEvent::Record, false)), StreamStage::Writing);
    assert_eq!(go(step(StreamStage::Writing, StreamEvent::Ready, false)), StreamStage::Reading);
    // A view that was left starts no decoder and reads no further.
    for stage in [StreamStage::Arming, StreamStage::Decoding, StreamStage::Writing] {
        assert!(matches!(
            step(stage, StreamEvent::Ready, true),
            StreamStep::Finish(Ok(()))
        ));
    }
    assert!(matches!(
        step(StreamStage::Reading, StreamEvent::Ended, false),
        StreamStep::Finish(Ok(()))
    ));
    // Each way to fail names its stage.
    let refused = PluginFailure {
        code: PluginCode::Rejected,
        sentence: text("The device refused the request"),
        reason: None,
    };
    assert!(matches!(
        step(StreamStage::Opening, StreamEvent::Refused(refused), false),
        StreamStep::Finish(Err(PackageFailure::Open(f))) if f.code == PluginCode::Rejected
    ));
    for stage in [StreamStage::Arming, StreamStage::Reading] {
        assert!(matches!(
            step(stage, StreamEvent::Broke(PluginCode::Timeout), false),
            StreamStep::Finish(Err(PackageFailure::Stream(PluginCode::Timeout)))
        ));
    }
    for stage in [StreamStage::Decoding, StreamStage::Writing] {
        assert!(matches!(
            step(stage, StreamEvent::Failed, false),
            StreamStep::Finish(Err(PackageFailure::Decoder))
        ));
    }
    assert!(matches!(
        step(StreamStage::Opening, StreamEvent::Record, false),
        StreamStep::Ignore
    ));
}
