use fan_control::failure::{
    Ending, Failure, PinFailure, PwmFailure, ACTUATOR_GUIDANCE, NO_GUIDANCE,
    PIN_PERMISSION_GUIDANCE, PWM_CHANNEL_GUIDANCE, PWM_PERMISSION_GUIDANCE,
    SENSOR_MISSING_GUIDANCE, SENSOR_PERMISSION_GUIDANCE,
};

#[test]
fn causes_become_failures() {
    assert_eq!(Failure::from_pwm(PwmFailure::PermissionDenied), Failure::PwmPermissionDenied);
    assert_eq!(Failure::from_pwm(PwmFailure::NotFound), Failure::PwmNotFound);
    assert_eq!(Failure::from_pwm(PwmFailure::Other), Failure::PwmUnavailable);
    assert_eq!(Failure::from_pin(PinFailure::PermissionDenied), Failure::PinPermissionDenied);
    assert_eq!(Failure::from_pin(PinFailure::Io), Failure::PinIo);
    assert_eq!(Failure::from_pin(PinFailure::Other), Failure::PinUnavailable);
}

#[test]
fn failures_that_the_operator_can_mend_exit_with_status_one() {
    assert_eq!(Failure::PwmPermissionDenied.ending(), Ending::Exit { status: 1 });
    assert_eq!(Failure::PwmNotFound.ending(), Ending::Exit { status: 1 });
    assert_eq!(Failure::PinPermissionDenied.ending(), Ending::Exit { status: 1 });
    assert_eq!(Failure::PinIo.ending(), Ending::Exit { status: 1 });
}

#[test]
fn other_failures_end_in_a_panic() {
    assert_eq!(Failure::PwmUnavailable.ending(), Ending::Panic);
    assert_eq!(Failure::PinUnavailable.ending(), Ending::Panic);
    assert_eq!(Failure::SensorPermissionDenied.ending(), Ending::Panic);
    assert_eq!(Failure::SensorNotFound.ending(), Ending::Panic);
    assert_eq!(Failure::ActuatorWrite.ending(), Ending::Panic);
}

#[test]
fn no_failure_ends_with_status_zero() {
    for failure in [
        Failure::PwmPermissionDenied,
        Failure::PwmNotFound,
        Failure::PwmUnavailable,
        Failure::PinPermissionDenied,
        Failure::PinIo,
        Failure::PinUnavailable,
        Failure::SensorPermissionDenied,
        Failure::SensorNotFound,
        Failure::ActuatorWrite,
    ] {
        assert_ne!(failure.ending(), Ending::Exit { status: 0 });
    }
}

#[test]
fn each_failure_has_its_guidance() {
    assert_eq!(Failure::PwmPermissionDenied.guidance(), PWM_PERMISSION_GUIDANCE);
    assert_eq!(Failure::PwmNotFound.guidance(), PWM_CHANNEL_GUIDANCE);
    assert_eq!(Failure::PwmUnavailable.guidance(), NO_GUIDANCE);
    assert_eq!(Failure::PinPermissionDenied.guidance(), PIN_PERMISSION_GUIDANCE);
    assert_eq!(Failure::PinIo.guidance(), "");
    assert_eq!(Failure::PinUnavailable.guidance(), "");
    assert_eq!(Failure::SensorPermissionDenied.guidance(), SENSOR_PERMISSION_GUIDANCE);
    assert_eq!(Failure::SensorNotFound.guidance(), SENSOR_MISSING_GUIDANCE);
    assert_eq!(Failure::ActuatorWrite.guidance(), ACTUATOR_GUIDANCE);
}

#[test]
fn guidance_names_what_to_change() {
    assert!(PWM_PERMISSION_GUIDANCE.contains("owned by root:gpio"));
    assert!(PWM_PERMISSION_GUIDANCE.contains("member of the gpio group"));
    assert!(PWM_PERMISSION_GUIDANCE.contains("/etc/udev/rules.d/99-com.rules"));
    assert!(PWM_PERMISSION_GUIDANCE.contains("SUBSYSTEM==\"pwm*\", PROGRAM=\"/bin/sh -c '\\\n"));
    assert!(PWM_CHANNEL_GUIDANCE.contains("dtoverlay=pwm"));
    assert!(PWM_CHANNEL_GUIDANCE.contains("/boot/overlays/README"));
    assert!(PIN_PERMISSION_GUIDANCE.contains("part of the gpio group"));
    assert!(PIN_PERMISSION_GUIDANCE.contains("/dev/gpiomem"));
    assert!(SENSOR_PERMISSION_GUIDANCE.contains("/sys/class/thermal/thermal_zone0/temp"));
    assert!(SENSOR_MISSING_GUIDANCE.contains("No temperature sensor found"));
}

#[test]
fn guidance_texts_are_complete() {
    let udev = r#"
As of kernel version 4.14.34, released on April 16 2018, it's possible to configure your Raspberry Pi to allow non-root access to PWM. 
4.14.34 includes a patch that allows udev to change file permissions when a PWM channel is exported. 
This will let any user that is a member of the GPIO group configure PWM without having to use sudo.

The udev rules needed to make this work haven't been patched in yet as of June 2018, but you can easily add them yourself. 
Make sure you're running 4.14.34 or later, and append the following snippet to /etc/udev/rules.d/99-com.rules. Reboot the Raspberry Pi afterwards.

```
SUBSYSTEM=="pwm*", PROGRAM="/bin/sh -c '\
    chown -R root:gpio /sys/class/pwm && chmod -R 770 /sys/class/pwm;\
    chown -R root:gpio /sys/devices/platform/soc/*.pwm/pwm/pwmchip* &&\
    chmod -R 770 /sys/devices/platform/soc/*.pwm/pwm/pwmchip*\
'"
```
"#;
    let lead = "Make sure /sys/class/pwm and all of its subdirectories are owned by \
                root:gpio, the current user is a member of the gpio group, and udev is \
                properly configured as mentioned below. Alternatively, you can launch \
                your application using sudo.\n\n";
    assert_eq!(PWM_PERMISSION_GUIDANCE, format!("{lead}{udev}"));
    let channels = r#"
By default, both channels are disabled.

To enable only PWM0 on its default pin (BCM GPIO 18, physical pin 12), add dtoverlay=pwm to /boot/config.txt on Raspberry Pi OS or boot/firmware/usercfg.txt on Ubuntu.
If you need both PWM channels, replace pwm with pwm-2chan, which enables PWM0 on BCM GPIO 18 (physical pin 12), and PWM1 on BCM GPIO 19 (physical pin 35).
More details on enabling and configuring PWM on other GPIO pins than the default ones can be found in /boot/overlays/README.
"#;
    let lead = "You may have forgotten to enable the selected PWM channel. The \
                configuration options to enable either of the two PWM channels are \
                listed below.\n\n";
    assert_eq!(PWM_CHANNEL_GUIDANCE, format!("{lead}{channels}"));
    let pin = "\nIn recent releases of Raspberry Pi OS (December 2017 or later), users that are \
               part of the gpio group (like the default pi user) can access /dev/gpiomem and \
               /dev/gpiochipN (N = 0-2) without needing additional permissions. \n\
               Either the current user isn\u{2019}t a member of the gpio group, or your Raspberry \
               Pi OS distribution isn't up-to-date and doesn't automatically configure \
               permissions for the above-mentioned files. \n\
               Updating Raspberry Pi OS to the latest release should fix any permission issues. \n\
               Alternatively, although not recommended, you can run your application with \
               superuser privileges by using sudo.\n\n\
               If you\u{2019}re unable to update Raspberry Pi OS and its packages (namely \
               raspberrypi-sys-mods) to the latest available release, or updating hasn't fixed \
               the issue, you might be able to manually update your udev rules to set the \
               appropriate permissions. \n\
               More information can be found at https://github.com/raspberrypi/linux/issues/1225 \
               and https://github.com/raspberrypi/linux/issues/2289.\n";
    assert_eq!(PIN_PERMISSION_GUIDANCE, pin);
    assert_eq!(PIN_PERMISSION_GUIDANCE.matches('\u{2019}').count(), 2);
    assert_eq!(PIN_PERMISSION_GUIDANCE.lines().count(), 8);
    assert_eq!(SENSOR_PERMISSION_GUIDANCE, "Failed to read /sys/class/thermal/thermal_zone0/temp.");
    assert_eq!(
        SENSOR_MISSING_GUIDANCE,
        "No temperature sensor found. Make sure you're running on a Raspberry Pi."
    );
    assert_eq!(ACTUATOR_GUIDANCE, "Error setting fan speed");
    assert_eq!(NO_GUIDANCE, "");
}
