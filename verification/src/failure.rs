//! The conditions that end the controller, and what to tell the operator.

use vstd::prelude::*;

verus! {

/// How configuring the PWM channel can fail.
#[derive(Clone, Copy, Debug, PartialEq, Eq)]
pub enum PwmFailure {
    PermissionDenied,
    NotFound,
    Other,
}

/// How acquiring the tachometer pin can fail.
#[derive(Clone, Copy, Debug, PartialEq, Eq)]
pub enum PinFailure {
    PermissionDenied,
    Io,
    Other,
}

/// How reading the temperature sensor can fail.
#[derive(Clone, Copy, Debug, PartialEq, Eq)]
pub enum ReadFailure {
    PermissionDenied,
    NotFound,
    Other,
}

/// A condition that the controller does not recover from.
#[derive(Clone, Copy, Debug, PartialEq, Eq)]
pub enum Failure {
    /// The PWM channel may not be configured by this user.
    PwmPermissionDenied,
    /// The PWM channel is not enabled.
    PwmNotFound,
    /// The PWM channel could not be configured for another reason.
    PwmUnavailable,
    /// The tachometer pin may not be used by this user.
    PinPermissionDenied,
    /// The tachometer pin could not be reached.
    PinIo,
    /// The tachometer pin could not be acquired for another reason.
    PinUnavailable,
    /// The temperature sensor may not be read by this user.
    SensorPermissionDenied,
    /// There is no temperature sensor.
    SensorNotFound,
    /// A duty cycle could not be written after the PWM channel was configured.
    ActuatorWrite,
}

/// How the process ends on a failure.
#[derive(Clone, Copy, Debug, PartialEq, Eq)]
pub enum Ending {
    /// An orderly exit with this status, after the guidance was printed.
    Exit { status: u8 },
    /// A panic.
    Panic,
}

/// What to do where the PWM channel may not be configured: ownership of
/// the PWM files, membership of the gpio group, and the udev rules.
pub const PWM_PERMISSION_GUIDANCE: &'static str =
    "Make sure /sys/class/pwm and all of its subdirectories are owned by root:gpio, the current user is a member of the gpio group, and udev is properly configured as mentioned below. Alternatively, you can launch your application using sudo.\n\
     \n\
     \n\
     As of kernel version 4.14.34, released on April 16 2018, it's possible to configure your Raspberry Pi to allow non-root access to PWM. \n\
     4.14.34 includes a patch that allows udev to change file permissions when a PWM channel is exported. \n\
     This will let any user that is a member of the GPIO group configure PWM without having to use sudo.\n\
     \n\
     The udev rules needed to make this work haven't been patched in yet as of June 2018, but you can easily add them yourself. \n\
     Make sure you're running 4.14.34 or later, and append the following snippet to /etc/udev/rules.d/99-com.rules. Reboot the Raspberry Pi afterwards.\n\
     \n\
     ```\n\
     SUBSYSTEM==\"pwm*\", PROGRAM=\"/bin/sh -c '\\\n    \
     chown -R root:gpio /sys/class/pwm && chmod -R 770 /sys/class/pwm;\\\n    \
     chown -R root:gpio /sys/devices/platform/soc/*.pwm/pwm/pwmchip* &&\\\n    \
     chmod -R 770 /sys/devices/platform/soc/*.pwm/pwm/pwmchip*\\\n\
     '\"\n\
     ```\n\
     ";

/// What to do where the PWM channel is not there: how to enable it.
pub const PWM_CHANNEL_GUIDANCE: &'static str =
    "You may have forgotten to enable the selected PWM channel. The configuration options to enable either of the two PWM channels are listed below.\n\
     \n\
     \n\
     By default, both channels are disabled.\n\
     \n\
     To enable only PWM0 on its default pin (BCM GPIO 18, physical pin 12), add dtoverlay=pwm to /boot/config.txt on Raspberry Pi OS or boot/firmware/usercfg.txt on Ubuntu.\n\
     If you need both PWM channels, replace pwm with pwm-2chan, which enables PWM0 on BCM GPIO 18 (physical pin 12), and PWM1 on BCM GPIO 19 (physical pin 35).\n\
     More details on enabling and configuring PWM on other GPIO pins than the default ones can be found in /boot/overlays/README.\n\
     ";

/// What to do where the tachometer pin may not be used: membership of the
/// gpio group and the permissions of the GPIO devices.
pub const PIN_PERMISSION_GUIDANCE: &'static str =
    "\n\
     In recent releases of Raspberry Pi OS (December 2017 or later), users that are part of the gpio group (like the default pi user) can access /dev/gpiomem and /dev/gpiochipN (N = 0-2) without needing additional permissions. \n\
     Either the current user isn\u{2019}t a member of the gpio group, or your Raspberry Pi OS distribution isn't up-to-date and doesn't automatically configure permissions for the above-mentioned files. \n\
     Updating Raspberry Pi OS to the latest release should fix any permission issues. \n\
     Alternatively, although not recommended, you can run your application with superuser privileges by using sudo.\n\
     \n\
     If you\u{2019}re unable to update Raspberry Pi OS and its packages (namely raspberrypi-sys-mods) to the latest available release, or updating hasn't fixed the issue, you might be able to manually update your udev rules to set the appropriate permissions. \n\
     More information can be found at https://github.com/raspberrypi/linux/issues/1225 and https://github.com/raspberrypi/linux/issues/2289.\n\
     ";

/// What is said where the temperature sensor may not be read.
pub const SENSOR_PERMISSION_GUIDANCE: &'static str =
    "Failed to read /sys/class/thermal/thermal_zone0/temp.";

/// What is said where there is no temperature sensor.
pub const SENSOR_MISSING_GUIDANCE: &'static str =
    "No temperature sensor found. Make sure you're running on a Raspberry Pi.";

/// What is said where a duty cycle could not be written.
pub const ACTUATOR_GUIDANCE: &'static str = "Error setting fan speed";

/// Nothing: the cause speaks for itself.
pub const NO_GUIDANCE: &'static str = "";

/// The failure that a failed PWM configuration is.
pub open spec fn pwm_failure(cause: PwmFailure) -> Failure {
    match cause {
        PwmFailure::PermissionDenied => Failure::PwmPermissionDenied,
        PwmFailure::NotFound => Failure::PwmNotFound,
        PwmFailure::Other => Failure::PwmUnavailable,
    }
}

/// The failure that a failed pin acquisition is.
pub open spec fn pin_failure(cause: PinFailure) -> Failure {
    match cause {
        PinFailure::PermissionDenied => Failure::PinPermissionDenied,
        PinFailure::Io => Failure::PinIo,
        PinFailure::Other => Failure::PinUnavailable,
    }
}

impl Failure {
    /// The failure is one of acquiring the hardware, before the first tick.
    pub open spec fn at_startup(self) -> bool {
        self is PwmPermissionDenied || self is PwmNotFound || self is PwmUnavailable
            || self is PinPermissionDenied || self is PinIo || self is PinUnavailable
    }

    /// How the process ends: with status 1 where the operator can mend the
    /// cause (no permission for the PWM channel or the pin, a PWM channel
    /// that is not enabled, a pin that cannot be reached), by a panic otherwise.
    pub open spec fn ending_of(self) -> Ending {
        match self {
            Failure::PwmPermissionDenied
            | Failure::PwmNotFound
            | Failure::PinPermissionDenied
            | Failure::PinIo => Ending::Exit { status: 1 },
            _ => Ending::Panic,
        }
    }

    /// The text that tells the operator what to do.
    pub open spec fn guidance_of(self) -> Seq<char> {
        match self {
            Failure::PwmPermissionDenied => PWM_PERMISSION_GUIDANCE@,
            Failure::PwmNotFound => PWM_CHANNEL_GUIDANCE@,
            Failure::PinPermissionDenied => PIN_PERMISSION_GUIDANCE@,
            Failure::SensorPermissionDenied => SENSOR_PERMISSION_GUIDANCE@,
            Failure::SensorNotFound => SENSOR_MISSING_GUIDANCE@,
            Failure::ActuatorWrite => ACTUATOR_GUIDANCE@,
            _ => NO_GUIDANCE@,
        }
    }

    /// The failure that a failed PWM configuration is.
    pub fn from_pwm(cause: PwmFailure) -> (failure: Failure)
        ensures
            failure == pwm_failure(cause),
            failure.at_startup(),
    {
        match cause {
            PwmFailure::PermissionDenied => Failure::PwmPermissionDenied,
            PwmFailure::NotFound => Failure::PwmNotFound,
            PwmFailure::Other => Failure::PwmUnavailable,
        }
    }

    /// The failure that a failed pin acquisition is.
    pub fn from_pin(cause: PinFailure) -> (failure: Failure)
        ensures
            failure == pin_failure(cause),
            failure.at_startup(),
    {
        match cause {
            PinFailure::PermissionDenied => Failure::PinPermissionDenied,
            PinFailure::Io => Failure::PinIo,
            PinFailure::Other => Failure::PinUnavailable,
        }
    }

    /// How the process ends on this failure; never with status 0.
    pub fn ending(&self) -> (ending: Ending)
        ensures
            ending == self.ending_of(),
            ending != (Ending::Exit { status: 0 }),
    {
        match self {
            Failure::PwmPermissionDenied
            | Failure::PwmNotFound
            | Failure::PinPermissionDenied
            | Failure::PinIo => Ending::Exit { status: 1 },
            _ => Ending::Panic,
        }
    }

    /// The text that tells the operator what to do; empty where there is
    /// nothing to add to the cause itself.
    pub fn guidance(&self) -> (text: &'static str)
        ensures
            text@ == self.guidance_of(),
    {
        match self {
            Failure::PwmPermissionDenied => PWM_PERMISSION_GUIDANCE,
            Failure::PwmNotFound => PWM_CHANNEL_GUIDANCE,
            Failure::PinPermissionDenied => PIN_PERMISSION_GUIDANCE,
            Failure::SensorPermissionDenied => SENSOR_PERMISSION_GUIDANCE,
            Failure::SensorNotFound => SENSOR_MISSING_GUIDANCE,
            Failure::ActuatorWrite => ACTUATOR_GUIDANCE,
            _ => NO_GUIDANCE,
        }
    }
}

} // verus!
