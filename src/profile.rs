//! Hardware profiles: the ACPI method paths and magic parameters of each supported Ideapad model.
use vstd::prelude::*;

verus! {

/// Bad things which could happen when dealing with [`Profile`]s.
#[derive(Debug)]
pub enum Error {
    /// Reading the system information failed.
    Io {
        /// A description of the failure.
        message: String,
    },
    /// Unable to get or find the system information from the SMBIOS.
    UnableToFindSystemInformation,
    /// No valid profile was found in the specified search path.
    NoValidProfileInSearchPath,
}

/// Handy wrapper for [`enum@Error`].
pub type Result<T> = std::result::Result<T, Error>;

/// Actual values of [`Bit`]. [`Self::Different`] may hold two equal values; [`Bit`] never does.
#[derive(Debug, Copy, Clone, PartialEq, Eq, Structural, Hash, PartialOrd, Ord)]
pub enum BitInner {
    /// Same bits.
    Same(u32),
    /// (not guaranteed to be) different bits.
    Different {
        /// The SPMO bit.
        spmo: u32,
        /// The FCMO bit.
        fcmo: u32,
    },
}

impl BitInner {
    /// The SPMO bit.
    pub open spec fn spmo_bit(self) -> u32 {
        match self {
            BitInner::Same(value) => value,
            BitInner::Different { spmo, .. } => spmo,
        }
    }

    /// The FCMO bit.
    pub open spec fn fcmo_bit(self) -> u32 {
        match self {
            BitInner::Same(value) => value,
            BitInner::Different { fcmo, .. } => fcmo,
        }
    }

    /// The same bits in their canonical form: equal bits are always [`Self::Same`].
    pub open spec fn normalized(self) -> BitInner {
        match self {
            BitInner::Different { spmo, fcmo } => if spmo == fcmo {
                BitInner::Same(spmo)
            } else {
                self
            },
            _ => self,
        }
    }
}

/// Represents an SPMO and an FCMO bit.
#[derive(Debug, Copy, Clone, PartialEq, Eq, Structural, Hash, PartialOrd, Ord)]
pub struct Bit(BitInner);

impl View for Bit {
    type V = BitInner;

    closed spec fn view(&self) -> BitInner {
        self.0
    }
}

impl Bit {
    #[verifier::type_invariant]
    spec fn canonical(self) -> bool {
        self.0.normalized() == self.0
    }

    /// Create a new bit with the same SPMO and FCMO bits.
    pub fn same(value: u32) -> (r: Self)
        ensures
            r@ == BitInner::Same(value),
    {
        Self::from_inner(BitInner::Same(value))
    }

    /// Create a new bit with different SPMO and FCMO bits. If both are the same, the bit is
    /// made with [`Self::same`].
    pub fn different(spmo: u32, fcmo: u32) -> (r: Self)
        ensures
            r@ == (BitInner::Different { spmo, fcmo }).normalized(),
    {
        Self::from_inner(BitInner::Different { spmo, fcmo })
    }

    /// Create a new bit from its inner value.
    pub fn from_inner(inner: BitInner) -> (r: Self)
        ensures
            r@ == inner.normalized(),
    {
        match inner {
            BitInner::Different { spmo, fcmo } => {
                if spmo == fcmo {
                    Bit(BitInner::Same(spmo))
                } else {
                    Bit(inner)
                }
            },
            _ => Bit(inner),
        }
    }

    /// Get the inner value of this bit, which is never a [`BitInner::Different`] of equal bits.
    pub fn inner(&self) -> (r: BitInner)
        ensures
            r == self@,
            r.normalized() == r,
    {
        proof {
            use_type_invariant(self);
        }
        self.0
    }

    /// Get the SPMO bit.
    pub fn spmo(&self) -> (r: u32)
        ensures
            r == self@.spmo_bit(),
    {
        match self.0 {
            BitInner::Same(value) => value,
            BitInner::Different { spmo, .. } => spmo,
        }
    }

    /// Get the FCMO bit.
    pub fn fcmo(&self) -> (r: u32)
        ensures
            r == self@.fcmo_bit(),
    {
        match self.0 {
            BitInner::Same(value) => value,
            BitInner::Different { fcmo, .. } => fcmo,
        }
    }
}


/// Commands used for system performance.
#[derive(Debug, Clone, PartialEq, Eq, Hash, PartialOrd, Ord)]
pub struct SystemPerformanceCommands {
    /// Set command.
    pub set: String,
    /// Get FCMO bit command.
    pub get_fcmo_bit: String,
    /// Get SPMO bit command.
    pub get_spmo_bit: String,
}

impl SystemPerformanceCommands {
    /// Create a new set of commands from string literals.
    pub fn from_static(set: &'static str, get_fcmo_bit: &'static str, get_spmo_bit: &'static str) -> (r: Self)
        ensures
            r.set@ == set@,
            r.get_fcmo_bit@ == get_fcmo_bit@,
            r.get_spmo_bit@ == get_spmo_bit@,
    {
        Self::new(set, get_fcmo_bit, get_spmo_bit)
    }

    /// Create a new set of commands from owned strings.
    pub fn dynamic(set: String, get_fcmo_bit: String, get_spmo_bit: String) -> (r: Self)
        ensures
            r.set@ == set@,
            r.get_fcmo_bit@ == get_fcmo_bit@,
            r.get_spmo_bit@ == get_spmo_bit@,
    {
        Self { set, get_fcmo_bit, get_spmo_bit }
    }

    /// Create a new set of commands.
    pub fn new(set: &str, get_fcmo_bit: &str, get_spmo_bit: &str) -> (r: Self)
        ensures
            r.set@ == set@,
            r.get_fcmo_bit@ == get_fcmo_bit@,
            r.get_spmo_bit@ == get_spmo_bit@,
    {
        Self {
            set: String::from_str(set),
            get_fcmo_bit: String::from_str(get_fcmo_bit),
            get_spmo_bit: String::from_str(get_spmo_bit),
        }
    }
}

/// System performance parameters which are passed as arguments to `acpi_call`.
#[derive(Debug, Copy, Clone, PartialEq, Eq, Structural, Hash, PartialOrd, Ord)]
pub struct SystemPerformanceParameters {
    /// Parameter which sets the system performance to intelligent cooling.
    pub intelligent_cooling: u32,
    /// Parameter which sets the system performance to extreme performance.
    pub extreme_performance: u32,
    /// Parameter which sets the system performance to battery saving.
    pub battery_saving: u32,
}

impl SystemPerformanceParameters {
    /// Parameters shared by the Ideapad 15IIL05 and Ideapad AMD models.
    pub fn shared() -> (r: Self)
        ensures
            r == Self::new_spec(0x000FB001, 0x0012B001, 0x0013B001),
    {
        Self::new(0x000FB001, 0x0012B001, 0x0013B001)
    }

    /// The parameters [`Self::new`] makes.
    pub open spec fn new_spec(intelligent_cooling: u32, extreme_performance: u32, battery_saving: u32) -> Self {
        Self { intelligent_cooling, extreme_performance, battery_saving }
    }

    /// Create a new set of system performance parameters.
    pub fn new(intelligent_cooling: u32, extreme_performance: u32, battery_saving: u32) -> (r: Self)
        ensures
            r == Self::new_spec(intelligent_cooling, extreme_performance, battery_saving),
    {
        Self { intelligent_cooling, extreme_performance, battery_saving }
    }
}

/// System performance bits, which tell the system performance modes apart.
#[derive(Debug, Copy, Clone, PartialEq, Eq, Structural, Hash, PartialOrd, Ord)]
pub struct SystemPerformanceBits {
    /// Intelligent cooling bit.
    pub intelligent_cooling: Bit,
    /// Extreme performance bit.
    pub extreme_performance: Bit,
    /// Battery saving bit.
    pub battery_saving: Bit,
}

impl SystemPerformanceBits {
    /// Bits shared by the Ideapad 15IIL05 and Ideapad AMD models.
    pub fn shared() -> (r: Self)
        ensures
            r.intelligent_cooling@ == BitInner::Same(0),
            r.extreme_performance@ == BitInner::Same(1),
            r.battery_saving@ == BitInner::Same(2),
    {
        Self::new(Bit::same(0x0), Bit::same(0x1), Bit::same(0x2))
    }

    /// Create a new set of system performance bits.
    pub fn new(intelligent_cooling: Bit, extreme_performance: Bit, battery_saving: Bit) -> (r: Self)
        ensures
            r == (Self { intelligent_cooling, extreme_performance, battery_saving }),
    {
        Self { intelligent_cooling, extreme_performance, battery_saving }
    }
}

/// System performance configuration.
#[derive(Debug, Clone, PartialEq, Eq, Hash, PartialOrd, Ord)]
pub struct SystemPerformance {
    /// Commands for system performance.
    pub commands: SystemPerformanceCommands,
    /// Bits for system performance.
    pub bits: SystemPerformanceBits,
    /// Parameters for system performance.
    pub parameters: SystemPerformanceParameters,
}

impl SystemPerformance {
    /// Create a new system performance configuration.
    pub fn new(
        commands: SystemPerformanceCommands,
        bits: SystemPerformanceBits,
        parameters: SystemPerformanceParameters,
    ) -> (r: Self)
        ensures
            r == (Self { commands, bits, parameters }),
    {
        Self { commands, bits, parameters }
    }
}

/// Parameters for [`SharedBatteryConfiguration`].
#[derive(Debug, Copy, Clone, PartialEq, Eq, Structural, Hash, PartialOrd, Ord)]
pub struct SharedBatteryConfigurationParameters {
    /// Enable either battery conservation or rapid charge.
    pub enable: u32,
    /// Disable either battery conservation or rapid charge.
    pub disable: u32,
}

impl SharedBatteryConfigurationParameters {
    /// Battery conservation parameters shared by the Ideapad 15IIL05 and Ideapad AMD models.
    pub fn conservation_shared() -> (r: Self)
        ensures
            r == (Self { enable: 0x03, disable: 0x05 }),
    {
        Self::new(0x03, 0x05)
    }

    /// Rapid charge parameters shared by the Ideapad 15IIL05 and Ideapad AMD models.
    pub fn rapid_charge_shared() -> (r: Self)
        ensures
            r == (Self { enable: 0x07, disable: 0x08 }),
    {
        Self::new(0x07, 0x08)
    }

    /// Create new shared battery configuration parameters.
    pub fn new(enable: u32, disable: u32) -> (r: Self)
        ensures
            r == (Self { enable, disable }),
    {
        Self { enable, disable }
    }
}

/// Configuration of battery conservation or of rapid charge.
#[derive(Debug, Clone, PartialEq, Eq, Hash, PartialOrd, Ord)]
pub struct SharedBatteryConfiguration {
    /// The command which gets the mode's status.
    pub get_command: String,
    /// Parameters of the mode.
    pub parameters: SharedBatteryConfigurationParameters,
}

impl SharedBatteryConfiguration {
    /// Create a new configuration from a string literal.
    pub fn from_static(get_command: &'static str, parameters: SharedBatteryConfigurationParameters) -> (r: Self)
        ensures
            r.get_command@ == get_command@,
            r.parameters == parameters,
    {
        Self::new(get_command, parameters)
    }

    /// Create a new configuration from an owned string.
    pub fn dynamic(get_command: String, parameters: SharedBatteryConfigurationParameters) -> (r: Self)
        ensures
            r.get_command@ == get_command@,
            r.parameters == parameters,
    {
        Self { get_command, parameters }
    }

    /// Create a new configuration.
    pub fn new(get_command: &str, parameters: SharedBatteryConfigurationParameters) -> (r: Self)
        ensures
            r.get_command@ == get_command@,
            r.parameters == parameters,
    {
        Self { get_command: String::from_str(get_command), parameters }
    }
}

/// Battery configuration of a profile.
#[derive(Debug, Clone, PartialEq, Eq, Hash, PartialOrd, Ord)]
pub struct Battery {
    /// The command which sets both battery conservation and rapid charge.
    pub set_command: String,
    /// Battery conservation configuration.
    pub conservation: SharedBatteryConfiguration,
    /// Rapid charge configuration.
    pub rapid_charge: SharedBatteryConfiguration,
}

impl Battery {
    /// Create a new battery configuration from a string literal.
    pub fn from_static(
        set_command: &'static str,
        conservation: SharedBatteryConfiguration,
        rapid_charge: SharedBatteryConfiguration,
    ) -> (r: Self)
        ensures
            r.set_command@ == set_command@,
            r.conservation == conservation,
            r.rapid_charge == rapid_charge,
    {
        Self::new(set_command, conservation, rapid_charge)
    }

    /// Create a new battery configuration from an owned string.
    pub fn dynamic(
        set_command: String,
        conservation: SharedBatteryConfiguration,
        rapid_charge: SharedBatteryConfiguration,
    ) -> (r: Self)
        ensures
            r.set_command@ == set_command@,
            r.conservation == conservation,
            r.rapid_charge == rapid_charge,
    {
        Self { set_command, conservation, rapid_charge }
    }

    /// Create a new battery configuration.
    pub fn new(
        set_command: &str,
        conservation: SharedBatteryConfiguration,
        rapid_charge: SharedBatteryConfiguration,
    ) -> (r: Self)
        ensures
            r.set_command@ == set_command@,
            r.conservation == conservation,
            r.rapid_charge == rapid_charge,
    {
        Self { set_command: String::from_str(set_command), conservation, rapid_charge }
    }
}


/// A configuration which lets the controllers work on a given Ideapad model.
#[derive(Debug, Clone, PartialEq, Eq, Hash, PartialOrd, Ord)]
pub struct Profile {
    /// The name of this profile.
    pub name: String,
    /// The product names which this profile supports.
    pub expected_product_names: Vec<String>,
    /// System performance.
    pub system_performance: SystemPerformance,
    /// Battery.
    pub battery: Battery,
}

/// The character sequences of `names`.
pub open spec fn names_view(names: Seq<String>) -> Seq<Seq<char>> {
    names.map_values(|n: String| n@)
}

impl Profile {
    /// Whether this profile supports the product named `product_name`.
    pub open spec fn supports(&self, product_name: Seq<char>) -> bool {
        names_view(self.expected_product_names@).contains(product_name)
    }

    /// Create a new profile from string literals.
    pub fn from_static(
        name: &'static str,
        expected_product_names: &[&'static str],
        system_performance: SystemPerformance,
        battery: Battery,
    ) -> (r: Self)
        ensures
            r.name@ == name@,
            names_view(r.expected_product_names@) == expected_product_names@.map_values(|n: &str| n@),
            r.system_performance == system_performance,
            r.battery == battery,
    {
        let mut names: Vec<String> = Vec::new();
        let mut i: usize = 0;
        while i < expected_product_names.len()
            invariant
                i <= expected_product_names@.len(),
                names@.len() == i,
                forall|k: int| 0 <= k < i ==> names@[k]@ == expected_product_names@[k]@,
            decreases expected_product_names@.len() - i,
        {
            names.push(String::from_str(expected_product_names[i]));
            i += 1;
        }
        proof {
            assert(names_view(names@) =~= expected_product_names@.map_values(|n: &str| n@));
        }
        Self { name: String::from_str(name), expected_product_names: names, system_performance, battery }
    }

    /// Create a new profile from owned strings.
    pub fn dynamic(
        name: String,
        expected_product_names: Vec<String>,
        system_performance: SystemPerformance,
        battery: Battery,
    ) -> (r: Self)
        ensures
            r.name@ == name@,
            r.expected_product_names@ == expected_product_names@,
            r.system_performance == system_performance,
            r.battery == battery,
    {
        Self { name, expected_product_names, system_performance, battery }
    }

    /// Create a new profile.
    pub fn new(
        name: &str,
        expected_product_names: Vec<String>,
        system_performance: SystemPerformance,
        battery: Battery,
    ) -> (r: Self)
        ensures
            r.name@ == name@,
            r.expected_product_names@ == expected_product_names@,
            r.system_performance == system_performance,
            r.battery == battery,
    {
        Self { name: String::from_str(name), expected_product_names, system_performance, battery }
    }

    /// Default profile for the Ideapad 15IIL05 model. It differs from
    /// [`Self::ideapad_amd`] only in its paths, which go through `LPCB` instead of `LPC0`.
    pub fn ideapad_15iil05() -> (r: Self)
        ensures
            r.name@ == "IDEAPAD_15IIL05"@,
            names_view(r.expected_product_names@) == seq!["81YK"@],
            r.system_performance.commands.set@ == "\\_SB.PCI0.LPCB.EC0.VPC0.DYTC"@,
            r.system_performance.commands.get_fcmo_bit@ == "\\_SB.PCI0.LPCB.EC0.FCMO"@,
            r.system_performance.commands.get_spmo_bit@ == "\\_SB.PCI0.LPCB.EC0.SPMO"@,
            r.battery.set_command@ == "\\_SB.PCI0.LPCB.EC0.VPC0.SBMC"@,
            r.battery.conservation.get_command@ == "\\_SB.PCI0.LPCB.EC0.BTSM"@,
            r.battery.rapid_charge.get_command@ == "\\_SB.PCI0.LPCB.EC0.QCHO"@,
            r.battery.conservation.parameters == (SharedBatteryConfigurationParameters { enable: 0x03, disable: 0x05 }),
            r.battery.rapid_charge.parameters == (SharedBatteryConfigurationParameters { enable: 0x07, disable: 0x08 }),
            r.system_performance.parameters == SystemPerformanceParameters::new_spec(0x000FB001, 0x0012B001, 0x0013B001),
            r.system_performance.bits.intelligent_cooling@ == BitInner::Same(0),
            r.system_performance.bits.extreme_performance@ == BitInner::Same(1),
            r.system_performance.bits.battery_saving@ == BitInner::Same(2),
    {
        let names = ["81YK"];
        let r = Self::from_static(
            "IDEAPAD_15IIL05",
            &names,
            SystemPerformance::new(
                SystemPerformanceCommands::from_static(
                    "\\_SB.PCI0.LPCB.EC0.VPC0.DYTC",
                    "\\_SB.PCI0.LPCB.EC0.FCMO",
                    "\\_SB.PCI0.LPCB.EC0.SPMO",
                ),
                SystemPerformanceBits::shared(),
                SystemPerformanceParameters::shared(),
            ),
            Battery::from_static(
                "\\_SB.PCI0.LPCB.EC0.VPC0.SBMC",
                SharedBatteryConfiguration::from_static(
                    "\\_SB.PCI0.LPCB.EC0.BTSM",
                    SharedBatteryConfigurationParameters::conservation_shared(),
                ),
                SharedBatteryConfiguration::from_static(
                    "\\_SB.PCI0.LPCB.EC0.QCHO",
                    SharedBatteryConfigurationParameters::rapid_charge_shared(),
                ),
            ),
        );
        proof {
            assert(names@.map_values(|n: &str| n@) =~= seq!["81YK"@]);
        }
        r
    }

    /// Default profile for the Ideapad AMD model.
    pub fn ideapad_amd() -> (r: Self)
        ensures
            r.name@ == "IDEAPAD_AMD"@,
            names_view(r.expected_product_names@) == seq!["81YQ"@, "81YM"@],
            r.system_performance.commands.set@ == "\\_SB.PCI0.LPC0.EC0.VPC0.DYTC"@,
            r.system_performance.commands.get_fcmo_bit@ == "\\_SB.PCI0.LPC0.EC0.FCMO"@,
            r.system_performance.commands.get_spmo_bit@ == "\\_SB.PCI0.LPC0.EC0.SPMO"@,
            r.battery.set_command@ == "\\_SB.PCI0.LPC0.EC0.VPC0.SBMC"@,
            r.battery.conservation.get_command@ == "\\_SB.PCI0.LPC0.EC0.BTSM"@,
            r.battery.rapid_charge.get_command@ == "\\_SB.PCI0.LPC0.EC0.QCHO"@,
            r.battery.conservation.parameters == (SharedBatteryConfigurationParameters { enable: 0x03, disable: 0x05 }),
            r.battery.rapid_charge.parameters == (SharedBatteryConfigurationParameters { enable: 0x07, disable: 0x08 }),
            r.system_performance.parameters == SystemPerformanceParameters::new_spec(0x000FB001, 0x0012B001, 0x0013B001),
            r.system_performance.bits.intelligent_cooling@ == BitInner::Same(0),
            r.system_performance.bits.extreme_performance@ == BitInner::Same(1),
            r.system_performance.bits.battery_saving@ == BitInner::Same(2),
    {
        let names = ["81YQ", "81YM"];
        let r = Self::from_static(
            "IDEAPAD_AMD",
            &names,
            SystemPerformance::new(
                SystemPerformanceCommands::from_static(
                    "\\_SB.PCI0.LPC0.EC0.VPC0.DYTC",
                    "\\_SB.PCI0.LPC0.EC0.FCMO",
                    "\\_SB.PCI0.LPC0.EC0.SPMO",
                ),
                SystemPerformanceBits::shared(),
                SystemPerformanceParameters::shared(),
            ),
            Battery::from_static(
                "\\_SB.PCI0.LPC0.EC0.VPC0.SBMC",
                SharedBatteryConfiguration::from_static(
                    "\\_SB.PCI0.LPC0.EC0.BTSM",
                    SharedBatteryConfigurationParameters::conservation_shared(),
                ),
                SharedBatteryConfiguration::from_static(
                    "\\_SB.PCI0.LPC0.EC0.QCHO",
                    SharedBatteryConfigurationParameters::rapid_charge_shared(),
                ),
            ),
        );
        proof {
            assert(names@.map_values(|n: &str| n@) =~= seq!["81YQ"@, "81YM"@]);
        }
        r
    }

    /// The default search path: every built-in profile, in order.
    pub fn search_path() -> (r: Vec<Self>)
        ensures
            r@.len() == 2,
            r@[0].name@ == "IDEAPAD_15IIL05"@,
            names_view(r@[0].expected_product_names@) == seq!["81YK"@],
            r@[1].name@ == "IDEAPAD_AMD"@,
            names_view(r@[1].expected_product_names@) == seq!["81YQ"@, "81YM"@],
    {
        let mut path: Vec<Self> = Vec::new();
        path.push(Self::ideapad_15iil05());
        path.push(Self::ideapad_amd());
        path
    }

    /// Find the profile for the product named `product_name` in the default search path:
    /// `81YK` is an Ideapad 15IIL05, `81YQ` and `81YM` are Ideapad AMD models.
    pub fn find(product_name: Option<String>) -> (r: Result<Self>)
        ensures
            product_name is None ==> r matches Err(Error::UnableToFindSystemInformation),
            product_name matches Some(name) ==> {
                if name@ == "81YK"@ {
                    r matches Ok(p) && p.name@ == "IDEAPAD_15IIL05"@
                } else if name@ == "81YQ"@ || name@ == "81YM"@ {
                    r matches Ok(p) && p.name@ == "IDEAPAD_AMD"@
                } else {
                    r matches Err(Error::NoValidProfileInSearchPath)
                }
            },
    {
        let path = Self::search_path();
        let ghost candidates = path@;
        proof {
            reveal_strlit("81YK");
            reveal_strlit("81YQ");
            reveal_strlit("81YM");
            reveal_strlit("IDEAPAD_15IIL05");
            reveal_strlit("IDEAPAD_AMD");
            if product_name is Some {
                let name = product_name->0;
                let first = names_view(candidates[0].expected_product_names@);
                let second = names_view(candidates[1].expected_product_names@);
                assert(first.contains(name@) <==> name@ == "81YK"@) by {
                    if first.contains(name@) {
                        let k = choose|k: int| 0 <= k < first.len() && first[k] == name@;
                        assert(k == 0);
                    }
                    if name@ == "81YK"@ {
                        assert(first[0] == name@);
                    }
                }
                assert(second.contains(name@) <==> (name@ == "81YQ"@ || name@ == "81YM"@)) by {
                    if second.contains(name@) {
                        let k = choose|k: int| 0 <= k < second.len() && second[k] == name@;
                        assert(k == 0 || k == 1);
                    }
                    if name@ == "81YQ"@ {
                        assert(second[0] == name@);
                    }
                    if name@ == "81YM"@ {
                        assert(second[1] == name@);
                    }
                }
                assert("IDEAPAD_15IIL05"@ != "IDEAPAD_AMD"@) by {
                    assert("IDEAPAD_15IIL05"@.len() != "IDEAPAD_AMD"@.len());
                }
            }
        }
        Self::find_with_search_path(path, product_name)
    }

    /// Find the first profile of `search_path` which supports the product named `product_name`,
    /// the name read from the system information (`None` where there was none).
    pub fn find_with_search_path(search_path: Vec<Self>, product_name: Option<String>) -> (r: Result<Self>)
        ensures
            product_name is None ==> r matches Err(Error::UnableToFindSystemInformation),
            product_name matches Some(name) ==> match r {
                Ok(p) => exists|i: int|
                    0 <= i < search_path@.len() && p == search_path@[i] && (#[trigger] search_path@[i]).supports(name@)
                        && forall|k: int| 0 <= k < i ==> !search_path@[k].supports(name@),
                Err(e) => e is NoValidProfileInSearchPath && forall|k: int|
                    0 <= k < search_path@.len() ==> !(#[trigger] search_path@[k]).supports(name@),
            },
    {
        let name = match product_name {
            Some(name) => name,
            None => return Err(Error::UnableToFindSystemInformation),
        };
        let ghost given = search_path@;
        let mut path = search_path;
        let mut i: usize = 0;
        while i < path.len()
            invariant
                product_name == Some(name),
                path@ == given,
                given == search_path@,
                i <= given.len(),
                forall|k: int| 0 <= k < i ==> !given[k].supports(name@),
            decreases given.len() - i,
        {
            let names = &path[i].expected_product_names;
            let mut j: usize = 0;
            while j < names.len()
                invariant
                    product_name == Some(name),
                    path@ == given,
                    given == search_path@,
                    i < given.len(),
                    forall|k: int| 0 <= k < i ==> !given[k].supports(name@),
                    names == given[i as int].expected_product_names,
                    j <= names@.len(),
                    forall|m: int| 0 <= m < j ==> names@[m]@ != name@,
                decreases names@.len() - j,
            {
                if names[j] == name {
                    proof {
                        assert(names_view(names@)[j as int] == name@);
                        assert(given[i as int].supports(name@));
                    }
                    let found = path.remove(i);
                    assert(found == given[i as int]);
                    return Ok(found);
                }
                j += 1;
            }
            proof {
                assert forall|m: int| 0 <= m < names_view(names@).len() implies names_view(names@)[m] != name@ by {
                    assert(names@[m]@ != name@);
                }
            }
            i += 1;
        }
        Err(Error::NoValidProfileInSearchPath)
    }
}

} // verus!
