use crate::error::{api_error, UniFiError};
use vstd::prelude::*;
use vstd::std_specs::convert::FromSpecImpl;

verus! {

/// A voucher: a code that lets a guest onto the network for a time, or for an
/// amount of data.
#[derive(Debug, Clone)]
pub struct Voucher {
    /// The identifier of the voucher.
    pub id: String,
    /// The administrator who made the voucher.
    pub admin_name: Option<String>,
    /// The code that the guest enters.
    pub code: String,
    /// When the voucher was made, in seconds since the Unix epoch.
    pub create_time: u64,
    /// How long the voucher lasts, in minutes.
    pub duration: u32,
    /// Whether the voucher is for a hotspot.
    pub for_hotspot: Option<bool>,
    /// A note on the voucher.
    pub note: Option<String>,
    /// Whether the limits below override the defaults.
    pub qos_overwrite: Option<bool>,
    /// The download limit in Kbps.
    pub qos_rate_max_down: Option<u32>,
    /// The upload limit in Kbps.
    pub qos_rate_max_up: Option<u32>,
    /// The data quota in MB.
    pub qos_usage_quota: Option<u64>,
    /// How often the voucher can be used: 0 for any number of times.
    pub quota: u32,
    /// The site that the voucher was made for.
    pub site_id: Option<String>,
    /// The state of the voucher.
    pub status: VoucherStatus,
    /// When the voucher ends, 0 while it is unused.
    pub status_expires: Option<u64>,
    /// How often the voucher was used.
    pub used: u32,
}

impl Voucher {
    /// How the voucher is shown: its code, and its state in brackets.
    pub open spec fn spec_label(&self) -> Seq<char> {
        "Code: "@ + self.code@ + " ("@ + self.status.spec_label() + ")"@
    }

    /// How the voucher is shown: its code, and its state in brackets.
    pub fn label(&self) -> (label: String)
        ensures
            label@ == self.spec_label(),
    {
        let mut label = "Code: ".to_owned();
        label.append(self.code.as_str());
        label.append(" (");
        label.append(self.status.label());
        label.append(")");
        label
    }
}

/// What it takes to make vouchers.
#[derive(Debug)]
pub struct VoucherConfig {
    /// How many vouchers to make.
    pub count: u32,
    /// How long each lasts once it is used, in minutes.
    pub duration: Option<u32>,
    /// A note on the vouchers.
    pub note: Option<String>,
    /// The upload limit in Kbps.
    pub up: Option<u32>,
    /// The download limit in Kbps.
    pub down: Option<u32>,
    /// The data quota in MB.
    pub data_quota: Option<u32>,
}

impl VoucherConfig {
    /// A configuration that says nothing yet.
    pub open spec fn spec_empty(&self) -> bool {
        &&& self.count == 0
        &&& self.duration is None
        &&& self.note is None
        &&& self.up is None
        &&& self.down is None
        &&& self.data_quota is None
    }

    /// Starts a configuration.
    pub fn builder() -> (builder: VoucherConfigBuilder)
        ensures
            builder.config.spec_empty(),
    {
        VoucherConfigBuilder { config: VoucherConfig::default() }
    }
}

impl Default for VoucherConfig {
    fn default() -> (config: VoucherConfig)
        ensures
            config.spec_empty(),
    {
        VoucherConfig { count: 0, duration: None, note: None, up: None, down: None, data_quota: None }
    }
}

/// A voucher configuration in the making.
#[derive(Debug)]
pub struct VoucherConfigBuilder {
    pub config: VoucherConfig,
}

impl Default for VoucherConfigBuilder {
    fn default() -> (builder: VoucherConfigBuilder)
        ensures
            builder.config.spec_empty(),
    {
        VoucherConfigBuilder { config: VoucherConfig::default() }
    }
}

/// What is said of a configuration that asks for no voucher at all.
pub open spec fn count_required() -> Seq<char> {
    "Voucher count must be greater than 0"@
}

impl VoucherConfigBuilder {
    /// Sets how many vouchers to make.
    pub fn count(self, count: u32) -> (builder: VoucherConfigBuilder)
        ensures
            builder.config == (VoucherConfig { count, ..self.config }),
    {
        let mut builder = self;
        builder.config.count = count;
        builder
    }

    /// Sets how long each voucher lasts once it is used, in minutes.
    pub fn duration(self, duration: u32) -> (builder: VoucherConfigBuilder)
        ensures
            builder.config == (VoucherConfig { duration: Some(duration), ..self.config }),
    {
        let mut builder = self;
        builder.config.duration = Some(duration);
        builder
    }

    /// Sets a note on the vouchers.
    pub fn note(self, note: &str) -> (builder: VoucherConfigBuilder)
        ensures
            builder.config.note matches Some(set) && set@ == note@,
            builder.config.count == self.config.count,
            builder.config.duration == self.config.duration,
            builder.config.up == self.config.up,
            builder.config.down == self.config.down,
            builder.config.data_quota == self.config.data_quota,
    {
        let mut builder = self;
        builder.config.note = Some(note.to_owned());
        builder
    }

    /// Sets the upload limit in Kbps.
    pub fn upload_limit(self, up: u32) -> (builder: VoucherConfigBuilder)
        ensures
            builder.config == (VoucherConfig { up: Some(up), ..self.config }),
    {
        let mut builder = self;
        builder.config.up = Some(up);
        builder
    }

    /// Sets the download limit in Kbps.
    pub fn download_limit(self, down: u32) -> (builder: VoucherConfigBuilder)
        ensures
            builder.config == (VoucherConfig { down: Some(down), ..self.config }),
    {
        let mut builder = self;
        builder.config.down = Some(down);
        builder
    }

    /// Sets the data quota in MB.
    pub fn data_quota(self, quota: u32) -> (builder: VoucherConfigBuilder)
        ensures
            builder.config == (VoucherConfig { data_quota: Some(quota), ..self.config }),
    {
        let mut builder = self;
        builder.config.data_quota = Some(quota);
        builder
    }

    /// Finishes the configuration, which must ask for at least one voucher.
    pub fn build(self) -> (built: Result<VoucherConfig, UniFiError>)
        ensures
            self.config.count > 0 ==> built == Ok::<VoucherConfig, UniFiError>(self.config),
            self.config.count == 0 ==> api_error(built, count_required()),
    {
        if self.config.count == 0 {
            return Err(UniFiError::ApiError("Voucher count must be greater than 0".to_owned()));
        }
        Ok(self.config)
    }
}

/// The unit in which a voucher's duration is counted.
#[derive(Debug, Clone, Copy)]
pub enum VoucherExpireUnit {
    Seconds,
    Minutes,
    Hours,
}

impl VoucherExpireUnit {
    /// The number by which the controller knows the unit.
    pub open spec fn spec_number(self) -> u32 {
        match self {
            VoucherExpireUnit::Seconds => 1,
            VoucherExpireUnit::Minutes => 60,
            VoucherExpireUnit::Hours => 3600,
        }
    }
}

impl From<VoucherExpireUnit> for u32 {
    fn from(unit: VoucherExpireUnit) -> (number: u32) {
        match unit {
            VoucherExpireUnit::Seconds => 1,
            VoucherExpireUnit::Minutes => 60,
            VoucherExpireUnit::Hours => 3600,
        }
    }
}

impl FromSpecImpl<VoucherExpireUnit> for u32 {
    open spec fn obeys_from_spec() -> bool {
        true
    }

    open spec fn from_spec(unit: VoucherExpireUnit) -> u32 {
        unit.spec_number()
    }
}

/// The state of a voucher.
#[derive(Debug, Clone, Copy, PartialEq, Eq, Structural)]
pub enum VoucherStatus {
    /// Valid, and not used yet.
    Valid,
    /// Used.
    Used,
    /// Ended.
    Expired,
}

impl VoucherStatus {
    /// How the state is shown.
    pub open spec fn spec_label(self) -> Seq<char> {
        match self {
            VoucherStatus::Valid => "Valid"@,
            VoucherStatus::Used => "Used"@,
            VoucherStatus::Expired => "Expired"@,
        }
    }

    /// How the state is shown.
    pub fn label(&self) -> (label: &'static str)
        ensures
            label@ == self.spec_label(),
    {
        match self {
            VoucherStatus::Valid => "Valid",
            VoucherStatus::Used => "Used",
            VoucherStatus::Expired => "Expired",
        }
    }
}

/// The body of the command that makes vouchers.
#[derive(Debug, Clone)]
pub struct CreateVoucherRequest {
    /// The command: `create-voucher`.
    pub cmd: String,
    /// How many vouchers to make.
    pub n: u32,
    /// How long each lasts once it is used, in minutes.
    pub expire: Option<u32>,
    /// How long each lasts once it is used, in `expire_unit`.
    pub expire_number: Option<u32>,
    /// The unit of `expire_number`.
    pub expire_unit: Option<VoucherExpireUnit>,
    /// How often each can be used: 0 for any number of times.
    pub quota: Option<u32>,
    /// A note on the vouchers.
    pub note: Option<String>,
    /// The upload limit in Kbps.
    pub up: Option<u32>,
    /// The download limit in Kbps.
    pub down: Option<u32>,
    /// The data quota in MB.
    pub bytes: Option<u32>,
}

impl CreateVoucherRequest {
    /// The command that a configuration asks for.
    pub open spec fn spec_of(&self, config: VoucherConfig) -> bool {
        &&& self.cmd@ == "create-voucher"@
        &&& self.n == config.count
        &&& self.expire == config.duration
        &&& self.expire_number is None
        &&& self.expire_unit is None
        &&& self.quota is None
        &&& self.note == config.note
        &&& self.up == config.up
        &&& self.down == config.down
        &&& self.bytes == config.data_quota
    }

    /// Makes the command that a configuration asks for, which must be for at
    /// least one voucher.
    pub fn try_from(config: VoucherConfig) -> (made: Result<CreateVoucherRequest, UniFiError>)
        ensures
            config.count > 0 ==> (made matches Ok(request) && request.spec_of(config)),
            config.count == 0 ==> api_error(made, count_required()),
    {
        if config.count == 0 {
            return Err(UniFiError::ApiError("Voucher count must be greater than 0".to_owned()));
        }
        Ok(
            CreateVoucherRequest {
                cmd: "create-voucher".to_owned(),
                n: config.count,
                expire: config.duration,
                expire_number: None,
                expire_unit: None,
                quota: None,
                note: config.note,
                up: config.up,
                down: config.down,
                bytes: config.data_quota,
            },
        )
    }
}

/// What the controller answers when it has made vouchers.
#[derive(Debug, Clone)]
pub struct CreateVoucherResponse {
    /// When the vouchers were made, in seconds since the Unix epoch.
    pub create_time: u64,
}

} // verus!
