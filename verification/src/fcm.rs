//! The push-notification transport's data model and the pure halves of each
//! send: building the request payload, and judging the response. The HTTP
//! call itself lives outside the library behind the `FcmService` port.

use vstd::prelude::*;
use vstd::string::StrSliceExecFns;

use crate::errors::PeerPowerError;

verus! {

#[derive(Debug)]
pub struct FcmMessage {
    pub to: String,
    /// The data payload as key-value pairs, in insertion order.
    pub data: Vec<(String, String)>,
    pub notification: Option<FcmNotification>,
    pub priority: String,
    pub time_to_live: u32,
}

#[derive(Debug)]
pub struct FcmNotification {
    pub title: String,
    pub body: String,
    pub icon: Option<String>,
    pub sound: Option<String>,
}

#[derive(Debug)]
pub struct FcmResponse {
    pub multicast_id: Option<u64>,
    pub success: u32,
    pub failure: u32,
    pub canonical_ids: u32,
    pub results: Option<Vec<FcmResult>>,
}

#[derive(Debug)]
pub struct FcmResult {
    pub message_id: Option<String>,
    pub registration_id: Option<String>,
    pub error: Option<String>,
}

/// The push transport port: accepts a dispatch request, a delivery
/// confirmation request, or a status update for a provider device, and
/// reports whether the transport accepted it. Implementations do the
/// network work outside the library.
pub trait FcmService {
    fn send_sms_dispatch_request(
        &mut self,
        fcm_token: &str,
        message_id: &str,
        recipient: &str,
        content: &str,
        priority: &str,
    ) -> Result<String, PeerPowerError>;

    fn send_delivery_confirmation_request(
        &mut self,
        fcm_token: &str,
        message_id: &str,
        delivery_status: &str,
    ) -> Result<String, PeerPowerError>;

    fn send_provider_status_update(&mut self, fcm_token: &str, status: &str) -> Result<
        String,
        PeerPowerError,
    >;
}

/// The payload pairs carry these keys, in order.
pub open spec fn spec_data_keys(data: Seq<(String, String)>, keys: Seq<Seq<char>>) -> bool {
    data.len() == keys.len() && forall|i: int| 0 <= i < data.len() ==> (#[trigger] data[i]).0@
        == keys[i]
}

/// Builds the dispatch request for one message: the payload names the
/// message, recipient, body and priority; a sounding notification alerts the
/// provider; urgent handling is requested only for `High` priority; the
/// request expires after five minutes.
pub fn build_sms_dispatch_message(
    fcm_token: &str,
    message_id: &str,
    recipient: &str,
    content: &str,
    priority: &str,
) -> (m: FcmMessage)
    ensures
        m.to@ == fcm_token@,
        spec_data_keys(
            m.data@,
            seq!["type"@, "message_id"@, "recipient"@, "content"@, "priority"@],
        ),
        m.data@[0].1@ == "sms_dispatch"@,
        m.data@[1].1@ == message_id@,
        m.data@[2].1@ == recipient@,
        m.data@[3].1@ == content@,
        m.data@[4].1@ == priority@,
        m.notification matches Some(n) && n.title@ == "New SMS Request"@ && n.body@ == "Send SMS to "@
            + recipient@ && (n.icon matches Some(ic) && ic@ == "ic_sms"@) && (n.sound matches Some(
            so,
        ) && so@ == "default"@),
        m.priority@ == if priority@ == "High"@ {
            "high"@
        } else {
            "normal"@
        },
        m.time_to_live == 300,
{
    let mut data: Vec<(String, String)> = Vec::new();
    data.push((String::from_str("type"), String::from_str("sms_dispatch")));
    data.push((String::from_str("message_id"), String::from_str(message_id)));
    data.push((String::from_str("recipient"), String::from_str(recipient)));
    data.push((String::from_str("content"), String::from_str(content)));
    data.push((String::from_str("priority"), String::from_str(priority)));
    let mut body = String::from_str("Send SMS to ");
    body.append(recipient);
    let urgent = crate::text::str_eq(priority, "High");
    FcmMessage {
        to: String::from_str(fcm_token),
        data,
        notification: Some(
            FcmNotification {
                title: String::from_str("New SMS Request"),
                body,
                icon: Some(String::from_str("ic_sms")),
                sound: Some(String::from_str("default")),
            },
        ),
        priority: if urgent {
            String::from_str("high")
        } else {
            String::from_str("normal")
        },
        time_to_live: 300,
    }
}

/// Builds the silent request asking a provider device to confirm a
/// delivery; it expires after one minute.
pub fn build_delivery_confirmation_message(
    fcm_token: &str,
    message_id: &str,
    delivery_status: &str,
) -> (m: FcmMessage)
    ensures
        m.to@ == fcm_token@,
        spec_data_keys(m.data@, seq!["type"@, "message_id"@, "status"@]),
        m.data@[0].1@ == "delivery_confirmation"@,
        m.data@[1].1@ == message_id@,
        m.data@[2].1@ == delivery_status@,
        m.notification is None,
        m.priority@ == "normal"@,
        m.time_to_live == 60,
{
    let mut data: Vec<(String, String)> = Vec::new();
    data.push((String::from_str("type"), String::from_str("delivery_confirmation")));
    data.push((String::from_str("message_id"), String::from_str(message_id)));
    data.push((String::from_str("status"), String::from_str(delivery_status)));
    FcmMessage {
        to: String::from_str(fcm_token),
        data,
        notification: None,
        priority: String::from_str("normal"),
        time_to_live: 60,
    }
}

/// Builds the silent status-update ping for a provider device; it expires
/// after two minutes.
pub fn build_status_update_message(fcm_token: &str, status: &str) -> (m: FcmMessage)
    ensures
        m.to@ == fcm_token@,
        spec_data_keys(m.data@, seq!["type"@, "status"@]),
        m.data@[0].1@ == "status_update"@,
        m.data@[1].1@ == status@,
        m.notification is None,
        m.priority@ == "normal"@,
        m.time_to_live == 120,
{
    let mut data: Vec<(String, String)> = Vec::new();
    data.push((String::from_str("type"), String::from_str("status_update")));
    data.push((String::from_str("status"), String::from_str(status)));
    FcmMessage {
        to: String::from_str(fcm_token),
        data,
        notification: None,
        priority: String::from_str("normal"),
        time_to_live: 120,
    }
}

/// Judges the transport's response to a dispatch request: accepted exactly
/// when at least one delivery succeeded.
pub fn fcm_dispatch_outcome(response: &FcmResponse) -> (r: Result<String, PeerPowerError>)
    ensures
        response.success > 0 <==> r is Ok,
        r matches Ok(s) ==> s@ == "FCM dispatch request sent successfully"@,
        r matches Err(e) ==> e matches PeerPowerError::ExternalService { service, message }
            && service@ == "FCM"@ && message@ == "Failed to deliver FCM message"@,
{
    if response.success > 0 {
        Ok(String::from_str("FCM dispatch request sent successfully"))
    } else {
        Err(PeerPowerError::ExternalService {
            service: String::from_str("FCM"),
            message: String::from_str("Failed to deliver FCM message"),
        })
    }
}

/// Judges the transport's response to a delivery-confirmation request.
pub fn fcm_confirmation_outcome(response: &FcmResponse) -> (r: Result<String, PeerPowerError>)
    ensures
        response.success > 0 <==> r is Ok,
        r matches Ok(s) ==> s@ == "Delivery confirmation request sent successfully"@,
        r matches Err(e) ==> e matches PeerPowerError::ExternalService { service, message }
            && service@ == "FCM"@ && message@ == "Failed to deliver delivery confirmation"@,
{
    if response.success > 0 {
        Ok(String::from_str("Delivery confirmation request sent successfully"))
    } else {
        Err(PeerPowerError::ExternalService {
            service: String::from_str("FCM"),
            message: String::from_str("Failed to deliver delivery confirmation"),
        })
    }
}

/// Judges the transport's response to a status update.
pub fn fcm_status_update_outcome(response: &FcmResponse) -> (r: Result<String, PeerPowerError>)
    ensures
        response.success > 0 <==> r is Ok,
        r matches Ok(s) ==> s@ == "Status update sent successfully"@,
        r matches Err(e) ==> e matches PeerPowerError::ExternalService { service, message }
            && service@ == "FCM"@ && message@ == "Failed to deliver status update"@,
{
    if response.success > 0 {
        Ok(String::from_str("Status update sent successfully"))
    } else {
        Err(PeerPowerError::ExternalService {
            service: String::from_str("FCM"),
            message: String::from_str("Failed to deliver status update"),
        })
    }
}

} // verus!
