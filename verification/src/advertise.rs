//! Advertising this device, and the errors of the discovery controls.

use vstd::prelude::*;
use vstd::string::*;
use crate::discovery::service_type;

verus! {

/// What a device announces of itself.
#[derive(Debug, PartialEq, Eq)]
pub struct Advertisement {
    /// The service type.
    pub service_type: String,
    /// The instance name: the device's alias.
    pub instance_name: String,
    /// The host name, in the local domain.
    pub host_name: String,
    /// The device's address on the local network.
    pub address: String,
    /// The port the device listens on.
    pub port: u16,
    /// The value of the `alias` property.
    pub alias_property: String,
}

/// An advertisement as plain values.
pub struct AdvertisementView {
    pub service_type: Seq<char>,
    pub instance_name: Seq<char>,
    pub host_name: Seq<char>,
    pub address: Seq<char>,
    pub port: u16,
    pub alias_property: Seq<char>,
}

impl View for Advertisement {
    type V = AdvertisementView;

    open spec fn view(&self) -> AdvertisementView {
        AdvertisementView {
            service_type: self.service_type@,
            instance_name: self.instance_name@,
            host_name: self.host_name@,
            address: self.address@,
            port: self.port,
            alias_property: self.alias_property@,
        }
    }
}

/// Builds the advertisement of a device from its alias and port, the name
/// of its host and its address.
pub fn advertisement(alias: &str, port: u16, hostname: &str, address: &str) -> (a: Advertisement)
    ensures
        a@ == (AdvertisementView {
            service_type: "_myshare_app._tcp.local."@,
            instance_name: alias@,
            host_name: hostname@ + ".local."@,
            address: address@,
            port,
            alias_property: alias@,
        }),
{
    Advertisement {
        service_type: service_type().to_owned(),
        instance_name: alias.to_owned(),
        host_name: hostname.to_owned().concat(".local."),
        address: address.to_owned(),
        port,
        alias_property: alias.to_owned(),
    }
}

/// The service record of the `mdns_sd` crate: opaque here, made from an
/// advertisement and handed on to the daemon.
#[verifier::external_type_specification]
#[verifier::external_body]
pub struct ExServiceInfo(mdns_sd::ServiceInfo);

/// The error type of the `mdns_sd` crate.
#[verifier::external_type_specification]
#[verifier::external_body]
pub struct ExDiscoveryError(mdns_sd::Error);

/// The key of the text property that carries a device's alias.
pub fn alias_property_key() -> (key: &'static str)
    ensures
        key@ == "alias"@,
{
    "alias"
}

/// Whether `mdns_sd::ServiceInfo::new` makes a record from these parts,
/// with one text property of the given key and value.  The crate decides
/// this from the parts alone: it parses the address and checks the
/// property.
pub uninterp spec fn service_info_accepted(
    service_type: Seq<char>,
    instance_name: Seq<char>,
    host_name: Seq<char>,
    address: Seq<char>,
    port: u16,
    property_key: Seq<char>,
    property_value: Seq<char>,
) -> bool;

/// Whether the discovery crate makes a record from the advertisement, the
/// alias going into the property `alias`.
pub open spec fn record_accepted(ad: AdvertisementView) -> bool {
    service_info_accepted(
        ad.service_type,
        ad.instance_name,
        ad.host_name,
        ad.address,
        ad.port,
        "alias"@,
        ad.alias_property,
    )
}

/// Calls `mdns_sd::ServiceInfo::new` with the parts of the advertisement
/// and the alias as the value of the one text property, under the given
/// key.  Trusted: whether a record is made depends on these parts alone;
/// nothing is claimed of the record or of the error.
#[verifier::external_body]
pub(crate) fn new_service_info(ad: &Advertisement, property_key: &str) -> (r: Result<
    mdns_sd::ServiceInfo,
    mdns_sd::Error,
>)
    ensures
        r is Ok == service_info_accepted(
            ad@.service_type,
            ad@.instance_name,
            ad@.host_name,
            ad@.address,
            ad@.port,
            property_key@,
            ad@.alias_property,
        ),
{
    let properties = [(property_key, ad.alias_property.as_str())];
    mdns_sd::ServiceInfo::new(
        ad.service_type.as_str(),
        ad.instance_name.as_str(),
        ad.host_name.as_str(),
        ad.address.as_str(),
        ad.port,
        &properties[..],
    )
}

/// Renders an `mdns_sd::Error` as text, by its `Display`.  Trusted; nothing
/// is claimed of the text.
#[verifier::external_body]
pub(crate) fn error_text(e: &mdns_sd::Error) -> (text: String)
{
    e.to_string()
}

/// Reads the outcome of making a service record: the record where one was
/// made, else a service-info error with the reason given.
pub fn service_record_from(made: Result<mdns_sd::ServiceInfo, String>) -> (r: Result<
    mdns_sd::ServiceInfo,
    RegistrationError,
>)
    ensures
        r == match made {
            Ok(info) => Ok::<mdns_sd::ServiceInfo, RegistrationError>(info),
            Err(reason) => Err::<mdns_sd::ServiceInfo, RegistrationError>(
                RegistrationError::ServiceInfo(reason),
            ),
        },
{
    match made {
        Ok(info) => Ok(info),
        Err(reason) => Err(RegistrationError::ServiceInfo(reason)),
    }
}

/// Makes the service record for an advertisement.  The record is made
/// exactly where the discovery crate accepts the advertisement; its refusal
/// comes back as a service-info error.
pub fn service_record(ad: &Advertisement) -> (r: Result<mdns_sd::ServiceInfo, RegistrationError>)
    ensures
        r is Ok <==> record_accepted(ad@),
        r is Err ==> r->Err_0 is ServiceInfo,
{
    let made = match new_service_info(ad, alias_property_key()) {
        Ok(info) => Ok(info),
        Err(e) => Err(error_text(&e)),
    };
    service_record_from(made)
}

/// Why a device could not advertise itself.  None of these stops the
/// device: it runs on, undiscoverable.
#[derive(Debug, PartialEq, Eq)]
pub enum RegistrationError {
    /// The discovery daemon could not be created.
    DaemonCreation(String),
    /// The device's address on the local network could not be found.
    LocalAddress(String),
    /// The service record was refused.
    ServiceInfo(String),
    /// The daemon refused to register the record.
    Registration(String),
}

/// The text of a registration error.
pub open spec fn registration_error_text(e: RegistrationError) -> Seq<char> {
    match e {
        RegistrationError::DaemonCreation(d) => "Failed to create ServiceDaemon: "@ + d@,
        RegistrationError::LocalAddress(d) => "Failed to get local IP: "@ + d@,
        RegistrationError::ServiceInfo(d) => "Failed to create ServiceInfo: "@ + d@,
        RegistrationError::Registration(d) => "Failed to register service: "@ + d@,
    }
}

impl RegistrationError {
    /// The error as the text that is logged.
    pub fn message(&self) -> (text: String)
        ensures
            text@ == registration_error_text(*self),
    {
        match self {
            RegistrationError::DaemonCreation(d) => "Failed to create ServiceDaemon: ".to_owned().concat(
                d.as_str(),
            ),
            RegistrationError::LocalAddress(d) => "Failed to get local IP: ".to_owned().concat(
                d.as_str(),
            ),
            RegistrationError::ServiceInfo(d) => "Failed to create ServiceInfo: ".to_owned().concat(
                d.as_str(),
            ),
            RegistrationError::Registration(d) => "Failed to register service: ".to_owned().concat(
                d.as_str(),
            ),
        }
    }
}

/// Why a command did not reach the discovery loop.
#[derive(Debug, PartialEq, Eq)]
pub enum ControlError {
    /// Discovery was never started.
    NotInitialized,
    /// The handle to the discovery loop could not be taken.
    LockFailed,
    /// The discovery loop is gone: a refresh could not be sent.
    RefreshNotSent(String),
    /// The discovery loop is gone: a new alias could not be sent.
    AliasNotSent(String),
}

/// The text of a control error.
pub open spec fn control_error_text(e: ControlError) -> Seq<char> {
    match e {
        ControlError::NotInitialized => "Discovery control not initialized"@,
        ControlError::LockFailed => "Failed to lock discovery control"@,
        ControlError::RefreshNotSent(d) => "Failed to send refresh command: "@ + d@,
        ControlError::AliasNotSent(d) => "Failed to send alias update command: "@ + d@,
    }
}

/// Reads the outcome of handing a command to the discovery loop.  Without
/// a running loop the command is reported as not initialised.  A command
/// that was sent succeeds; one that could not be sent fails with the reason
/// given, as a refresh or as a new alias according to what it was.
pub fn control_outcome(initialised: bool, refresh: bool, sent: Result<(), String>) -> (r: Result<
    (),
    ControlError,
>)
    ensures
        !initialised ==> r == Err::<(), ControlError>(ControlError::NotInitialized),
        initialised && sent is Ok ==> r is Ok,
        initialised && sent is Err && refresh ==> r == Err::<(), ControlError>(
            ControlError::RefreshNotSent(sent->Err_0),
        ),
        initialised && sent is Err && !refresh ==> r == Err::<(), ControlError>(
            ControlError::AliasNotSent(sent->Err_0),
        ),
{
    if !initialised {
        return Err(ControlError::NotInitialized);
    }
    match sent {
        Ok(()) => Ok(()),
        Err(reason) => {
            if refresh {
                Err(ControlError::RefreshNotSent(reason))
            } else {
                Err(ControlError::AliasNotSent(reason))
            }
        },
    }
}

impl ControlError {
    /// The error as the text that the caller is shown.
    pub fn message(&self) -> (text: String)
        ensures
            text@ == control_error_text(*self),
    {
        match self {
            ControlError::NotInitialized => "Discovery control not initialized".to_owned(),
            ControlError::LockFailed => "Failed to lock discovery control".to_owned(),
            ControlError::RefreshNotSent(d) => "Failed to send refresh command: ".to_owned().concat(
                d.as_str(),
            ),
            ControlError::AliasNotSent(d) => "Failed to send alias update command: ".to_owned().concat(
                d.as_str(),
            ),
        }
    }
}

} // verus!
