//! The build profile: raw input as read from a profile source, and the
//! validated, typed description that the pipeline consumes.
use vstd::prelude::*;
use vstd::string::*;

verus! {

/// Distribution family of the target image.
#[derive(PartialEq, Eq, Structural, Clone, Copy, Debug)]
pub enum Base {
    Ubuntu,
    Debian,
    Fedora,
}

/// Init system of the target image.
#[derive(PartialEq, Eq, Structural, Clone, Copy, Debug)]
pub enum InitSystem {
    Systemd,
    Openrc,
}

/// Bootloader installed into the target image.
#[derive(PartialEq, Eq, Structural, Clone, Copy, Debug)]
pub enum Bootloader {
    Grub,
    SystemdBoot,
}

/// Output format of the final artifact. Only ISO images exist so far.
#[derive(PartialEq, Eq, Structural, Clone, Copy, Debug)]
pub enum ImageFormat {
    Iso,
}

/// Why a raw profile was rejected.
#[derive(PartialEq, Eq, Structural, Clone, Copy, Debug)]
pub enum ValidationError {
    EmptyDistroName,
    EmptyVersion,
    UnknownBase,
    UnknownInitSystem,
    UnknownBootloader,
    UnknownFormat,
    /// Neither UEFI nor BIOS support was requested.
    NoFirmware,
    /// An atomic image was requested on a base other than fedora.
    AtomicRequiresFedora,
}

/// A profile as a profile source hands it over: every attribute still a
/// plain string or flag.
pub struct ProfileInput {
    pub packages: Vec<String>,
    pub distro_name: String,
    pub base: String,
    pub version: String,
    pub init_system: String,
    pub packages_to_remove: Vec<String>,
    pub bootloader: String,
    pub uefi_support: bool,
    pub bios_support: bool,
    pub format: String,
    pub atomic: bool,
}

/// A validated profile. `wf` is its invariant; `Profile::validate` is the
/// way to obtain one.
pub struct Profile {
    pub distro_name: String,
    pub version: String,
    pub base: Base,
    pub atomic: bool,
    pub init_system: InitSystem,
    pub bootloader: Bootloader,
    pub uefi_support: bool,
    pub bios_support: bool,
    pub packages: Vec<String>,
    pub packages_to_remove: Vec<String>,
    pub format: ImageFormat,
}

pub open spec fn spec_parse_base(s: Seq<char>) -> Option<Base> {
    if s == "ubuntu"@ {
        Some(Base::Ubuntu)
    } else if s == "debian"@ {
        Some(Base::Debian)
    } else if s == "fedora"@ {
        Some(Base::Fedora)
    } else {
        None
    }
}

pub open spec fn spec_parse_init_system(s: Seq<char>) -> Option<InitSystem> {
    if s == "systemd"@ {
        Some(InitSystem::Systemd)
    } else if s == "openrc"@ {
        Some(InitSystem::Openrc)
    } else {
        None
    }
}

pub open spec fn spec_parse_bootloader(s: Seq<char>) -> Option<Bootloader> {
    if s == "grub"@ {
        Some(Bootloader::Grub)
    } else if s == "systemd-boot"@ {
        Some(Bootloader::SystemdBoot)
    } else {
        None
    }
}

pub open spec fn spec_parse_format(s: Seq<char>) -> Option<ImageFormat> {
    if s == "iso"@ {
        Some(ImageFormat::Iso)
    } else {
        None
    }
}

/// Parses a distribution family name.
pub fn parse_base(s: &String) -> (r: Option<Base>)
    ensures
        r == spec_parse_base(s@),
{
    if *s == String::from_str("ubuntu") {
        Some(Base::Ubuntu)
    } else if *s == String::from_str("debian") {
        Some(Base::Debian)
    } else if *s == String::from_str("fedora") {
        Some(Base::Fedora)
    } else {
        None
    }
}

/// Parses an init system name.
pub fn parse_init_system(s: &String) -> (r: Option<InitSystem>)
    ensures
        r == spec_parse_init_system(s@),
{
    if *s == String::from_str("systemd") {
        Some(InitSystem::Systemd)
    } else if *s == String::from_str("openrc") {
        Some(InitSystem::Openrc)
    } else {
        None
    }
}

/// Parses a bootloader name.
pub fn parse_bootloader(s: &String) -> (r: Option<Bootloader>)
    ensures
        r == spec_parse_bootloader(s@),
{
    if *s == String::from_str("grub") {
        Some(Bootloader::Grub)
    } else if *s == String::from_str("systemd-boot") {
        Some(Bootloader::SystemdBoot)
    } else {
        None
    }
}

/// Parses an output format name.
pub fn parse_format(s: &String) -> (r: Option<ImageFormat>)
    ensures
        r == spec_parse_format(s@),
{
    if *s == String::from_str("iso") {
        Some(ImageFormat::Iso)
    } else {
        None
    }
}

/// The first rule that a raw profile breaks, in the order in which they are
/// checked, or `None` when it is valid. An atomic image on a base other than
/// fedora is rejected, never downgraded.
pub open spec fn validation_error(i: ProfileInput) -> Option<ValidationError> {
    if i.distro_name@.len() == 0 {
        Some(ValidationError::EmptyDistroName)
    } else if i.version@.len() == 0 {
        Some(ValidationError::EmptyVersion)
    } else if spec_parse_base(i.base@).is_none() {
        Some(ValidationError::UnknownBase)
    } else if spec_parse_init_system(i.init_system@).is_none() {
        Some(ValidationError::UnknownInitSystem)
    } else if spec_parse_bootloader(i.bootloader@).is_none() {
        Some(ValidationError::UnknownBootloader)
    } else if spec_parse_format(i.format@).is_none() {
        Some(ValidationError::UnknownFormat)
    } else if !i.uefi_support && !i.bios_support {
        Some(ValidationError::NoFirmware)
    } else if i.atomic && spec_parse_base(i.base@) != Some(Base::Fedora) {
        Some(ValidationError::AtomicRequiresFedora)
    } else {
        None
    }
}

impl Profile {
    /// The profile invariant: identity strings are non-empty, at least one
    /// firmware mode is selected, and atomic images are fedora-based.
    pub open spec fn wf(&self) -> bool {
        &&& self.distro_name@.len() > 0
        &&& self.version@.len() > 0
        &&& (self.uefi_support || self.bios_support)
        &&& (self.atomic ==> self.base == Base::Fedora)
    }

    /// `self` carries exactly the attributes written in `i`.
    pub open spec fn describes(&self, i: ProfileInput) -> bool {
        &&& self.distro_name@ == i.distro_name@
        &&& self.version@ == i.version@
        &&& spec_parse_base(i.base@) == Some(self.base)
        &&& spec_parse_init_system(i.init_system@) == Some(self.init_system)
        &&& spec_parse_bootloader(i.bootloader@) == Some(self.bootloader)
        &&& spec_parse_format(i.format@) == Some(self.format)
        &&& self.atomic == i.atomic
        &&& self.uefi_support == i.uefi_support
        &&& self.bios_support == i.bios_support
        &&& self.packages@ == i.packages@
        &&& self.packages_to_remove@ == i.packages_to_remove@
    }

    /// Checks a raw profile once, before any build work, and turns it into a
    /// typed one.
    pub fn validate(i: ProfileInput) -> (r: Result<Profile, ValidationError>)
        ensures
            match r {
                Ok(p) => validation_error(i) is None && p.describes(i) && p.wf(),
                Err(e) => validation_error(i) == Some(e),
            },
    {
        let ghost gi = i;
        if i.distro_name.unicode_len() == 0 {
            return Err(ValidationError::EmptyDistroName);
        }
        if i.version.unicode_len() == 0 {
            return Err(ValidationError::EmptyVersion);
        }
        let base = match parse_base(&i.base) {
            Some(b) => b,
            None => return Err(ValidationError::UnknownBase),
        };
        let init_system = match parse_init_system(&i.init_system) {
            Some(s) => s,
            None => return Err(ValidationError::UnknownInitSystem),
        };
        let bootloader = match parse_bootloader(&i.bootloader) {
            Some(b) => b,
            None => return Err(ValidationError::UnknownBootloader),
        };
        let format = match parse_format(&i.format) {
            Some(f) => f,
            None => return Err(ValidationError::UnknownFormat),
        };
        if !i.uefi_support && !i.bios_support {
            return Err(ValidationError::NoFirmware);
        }
        if i.atomic && base != Base::Fedora {
            return Err(ValidationError::AtomicRequiresFedora);
        }
        let p = Profile {
            distro_name: i.distro_name,
            version: i.version,
            base,
            atomic: i.atomic,
            init_system,
            bootloader,
            uefi_support: i.uefi_support,
            bios_support: i.bios_support,
            packages: i.packages,
            packages_to_remove: i.packages_to_remove,
            format,
        };
        assert(p.describes(gi));
        Ok(p)
    }
}

} // verus!
