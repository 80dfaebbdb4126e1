//! Randomized spoofed device identities.
//!
//! An identity fixes a platform, the platform's OAuth client identifier, a
//! fresh instance identifier, and two header sets: the fingerprinting headers
//! sent only on the first token request, and the persistent headers that form
//! the baseline of every later request.

use crate::headers::HeaderMap;
use crate::numbers::{spec_decimal, u64_to_string};
use crate::trusted::{new_instance_id, rand_bool, rand_index, rand_u8};
use vstd::prelude::*;
use vstd::string::StringExecFns;

verus! {

/// The platform a spoofed identity claims to run on.
#[derive(Clone, Copy, Debug, PartialEq, Eq, Structural)]
pub enum Platform {
    Android,
    Ios,
}

/// A spoofed client identity, fixed at creation.
pub struct Device {
    pub platform: Platform,
    pub oauth_id: String,
    pub instance_id: String,
    pub initial_headers: HeaderMap,
    pub headers: HeaderMap,
}

/// The OAuth client identifier presented by the spoofed Android client.
pub open spec fn spec_android_client_id() -> Seq<char> {
    "ohXpoqrZYub1kg"@
}

/// The OAuth client identifier presented by the spoofed iOS client.
pub open spec fn spec_ios_client_id() -> Seq<char> {
    "LNDo9k1o8UAEUw"@
}

/// The fixed placeholder advertising identifier sent by the iOS client.
pub open spec fn spec_placeholder_ad_id() -> Seq<char> {
    "00000000-0000-0000-0000-000000000000"@
}

/// The candidate Android app-version strings for the spoofed user agent.
pub open spec fn spec_android_app_versions() -> Seq<Seq<char>> {
    seq![
        "Version 2024.22.1/Build 1652272"@,
        "Version 2024.20.2/Build 1624969"@,
        "Version 2024.17.0/Build 1568106"@,
        "Version 2023.50.1/Build 1322281"@,
    ]
}

/// The candidate iOS app-version strings for the spoofed user agent.
pub open spec fn spec_ios_app_versions() -> Seq<Seq<char>> {
    seq![
        "Version 2024.23.0/Build 613580"@,
        "Version 2024.20.0/Build 601814"@,
        "Version 2024.16.0/Build 590830"@,
        "Version 2023.48.0/Build 510950"@,
    ]
}

/// The candidate iOS OS-version strings for the spoofed user agent.
pub open spec fn spec_ios_os_versions() -> Seq<Seq<char>> {
    seq!["17.5.1"@, "17.4.1"@, "16.7.8"@, "16.6.1"@]
}

pub fn android_client_id() -> (r: &'static str)
    ensures
        r@ == spec_android_client_id(),
{
    "ohXpoqrZYub1kg"
}

pub fn ios_client_id() -> (r: &'static str)
    ensures
        r@ == spec_ios_client_id(),
{
    "LNDo9k1o8UAEUw"
}

pub fn android_app_versions() -> (r: Vec<&'static str>)
    ensures
        r@.len() == spec_android_app_versions().len(),
        forall|i: int| 0 <= i < r@.len() ==> (#[trigger] r@[i])@ == spec_android_app_versions()[i],
{
    let r = vec![
        "Version 2024.22.1/Build 1652272",
        "Version 2024.20.2/Build 1624969",
        "Version 2024.17.0/Build 1568106",
        "Version 2023.50.1/Build 1322281",
    ];
    r
}

pub fn ios_app_versions() -> (r: Vec<&'static str>)
    ensures
        r@.len() == spec_ios_app_versions().len(),
        forall|i: int| 0 <= i < r@.len() ==> (#[trigger] r@[i])@ == spec_ios_app_versions()[i],
{
    let r = vec![
        "Version 2024.23.0/Build 613580",
        "Version 2024.20.0/Build 601814",
        "Version 2024.16.0/Build 590830",
        "Version 2023.48.0/Build 510950",
    ];
    r
}

pub fn ios_os_versions() -> (r: Vec<&'static str>)
    ensures
        r@.len() == spec_ios_os_versions().len(),
        forall|i: int| 0 <= i < r@.len() ==> (#[trigger] r@[i])@ == spec_ios_os_versions()[i],
{
    let r = vec!["17.5.1", "17.4.1", "16.7.8", "16.6.1"];
    r
}

/// Picks one entry of a non-empty list at random.
fn pick<'a>(list: &Vec<&'a str>) -> (r: &'a str)
    requires
        list@.len() >= 1,
    ensures
        exists|i: int| 0 <= i < list@.len() && r == list@[i],
{
    let i = rand_index(list.len());
    list[i]
}

/// The user-agent string the Android identity synthesizes.
pub open spec fn android_user_agent_of(version: Seq<char>, os: int) -> Seq<char> {
    "Reddit/"@ + version + "/Android "@ + spec_decimal(os)
}

/// The user-agent string the iOS identity synthesizes.
pub open spec fn ios_user_agent_of(version: Seq<char>, os: Seq<char>) -> Seq<char> {
    "Reddit/"@ + version + "/iOS "@ + os
}

/// The device-model string the iOS identity synthesizes.
pub open spec fn ios_device_name_of(model: int) -> Seq<char> {
    "iPhone"@ + spec_decimal(model) + ",1"@
}

/// A well-formed Android identity: the Android client id, a fresh instance
/// id, and one header set - vendor id and device id both carrying the
/// instance id, plus the user agent - used both initially and persistently.
pub open spec fn android_wf(d: Device) -> bool {
    &&& d.platform is Android
    &&& d.oauth_id@ == spec_android_client_id()
    &&& d.instance_id@.len() == 36
    &&& d.initial_headers.wf()
    &&& d.headers.wf()
    &&& d.initial_headers@ == d.headers@
    &&& d.headers@.dom().len() == 3
    &&& d.headers@.contains_key("Client-Vendor-Id"@)
    &&& d.headers@["Client-Vendor-Id"@] == d.instance_id@
    &&& d.headers@.contains_key("X-Reddit-Device-Id"@)
    &&& d.headers@["X-Reddit-Device-Id"@] == d.instance_id@
    &&& d.headers@.contains_key("User-Agent"@)
    &&& (exists|v: int, os: int|
        0 <= v < spec_android_app_versions().len() && 9 <= os <= 14 && d.headers@["User-Agent"@]
            == android_user_agent_of(spec_android_app_versions()[v], os))
}

/// A well-formed iOS identity: the iOS client id, a fresh instance id, three
/// fingerprinting headers sent once, and a seven-header persistent superset
/// carrying the instance id, the placeholder ad id and the anonymous-user
/// marker.
pub open spec fn ios_wf(d: Device) -> bool {
    &&& d.platform is Ios
    &&& d.oauth_id@ == spec_ios_client_id()
    &&& d.instance_id@.len() == 36
    &&& d.initial_headers.wf()
    &&& d.headers.wf()
    &&& d.initial_headers@.dom().len() == 3
    &&& d.initial_headers@.contains_key("X-Reddit-DPR"@)
    &&& d.initial_headers@.contains_key("User-Agent"@)
    &&& d.initial_headers@.contains_key("Device-Name"@)
    &&& d.headers@.dom().len() == 7
    &&& d.headers@.contains_key("X-Reddit-DPR"@)
    &&& d.headers@["X-Reddit-DPR"@] == "2"@
    &&& d.headers@.contains_key("User-Agent"@)
    &&& d.headers@.contains_key("Device-Name"@)
    &&& d.headers@.contains_key("Client-Vendor-Id"@)
    &&& d.headers@["Client-Vendor-Id"@] == d.instance_id@
    &&& d.headers@.contains_key("x-dev-ad-id"@)
    &&& d.headers@["x-dev-ad-id"@] == spec_placeholder_ad_id()
    &&& d.headers@.contains_key("Reddit-User_Id"@)
    &&& d.headers@["Reddit-User_Id"@] == "anonymous_browsing_mode"@
    &&& d.headers@.contains_key("x-reddit-device-id"@)
    &&& d.headers@["x-reddit-device-id"@] == d.instance_id@
    &&& d.headers@["X-Reddit-DPR"@] == d.initial_headers@["X-Reddit-DPR"@]
    &&& d.headers@["User-Agent"@] == d.initial_headers@["User-Agent"@]
    &&& d.headers@["Device-Name"@] == d.initial_headers@["Device-Name"@]
    &&& (exists|v: int, o: int|
        0 <= v < spec_ios_app_versions().len() && 0 <= o < spec_ios_os_versions().len()
            && d.headers@["User-Agent"@] == ios_user_agent_of(
            spec_ios_app_versions()[v],
            spec_ios_os_versions()[o],
        ))
    &&& (exists|m: int| 8 <= m <= 15 && d.headers@["Device-Name"@] == ios_device_name_of(m))
}

/// A well-formed identity claims exactly one of the two platforms, with that
/// platform's header set.
pub open spec fn device_wf(d: Device) -> bool {
    android_wf(d) || ios_wf(d)
}

/// The domain of a map built by three inserts of distinct keys into the
/// empty map has exactly three keys.
proof fn lemma_three_key_dom(
    k1: Seq<char>,
    k2: Seq<char>,
    k3: Seq<char>,
    v1: Seq<char>,
    v2: Seq<char>,
    v3: Seq<char>,
)
    requires
        k1 != k2,
        k1 != k3,
        k2 != k3,
    ensures
        Map::<Seq<char>, Seq<char>>::empty().insert(k1, v1).insert(k2, v2).insert(
            k3,
            v3,
        ).dom().len() == 3,
{
    let m0 = Map::<Seq<char>, Seq<char>>::empty();
    let m1 = m0.insert(k1, v1);
    let m2 = m1.insert(k2, v2);
    let m3 = m2.insert(k3, v3);
    assert(m0.dom() =~= Set::<Seq<char>>::empty());
    assert(m1.dom() =~= m0.dom().insert(k1));
    assert(m2.dom() =~= m1.dom().insert(k2));
    assert(m3.dom() =~= m2.dom().insert(k3));
    vstd::set::axiom_set_insert_len(m0.dom(), k1);
    vstd::set::axiom_set_insert_len(m1.dom(), k2);
    vstd::set::axiom_set_insert_len(m2.dom(), k3);
}

/// The domain of a map built by seven inserts of pairwise distinct keys
/// into the empty map has exactly seven keys.
proof fn lemma_seven_key_dom(
    k1: Seq<char>,
    k2: Seq<char>,
    k3: Seq<char>,
    k4: Seq<char>,
    k5: Seq<char>,
    k6: Seq<char>,
    k7: Seq<char>,
    v1: Seq<char>,
    v2: Seq<char>,
    v3: Seq<char>,
    v4: Seq<char>,
    v5: Seq<char>,
    v6: Seq<char>,
    v7: Seq<char>,
)
    requires
        k1 != k2, k1 != k3, k1 != k4, k1 != k5, k1 != k6, k1 != k7,
        k2 != k3, k2 != k4, k2 != k5, k2 != k6, k2 != k7,
        k3 != k4, k3 != k5, k3 != k6, k3 != k7,
        k4 != k5, k4 != k6, k4 != k7,
        k5 != k6, k5 != k7,
        k6 != k7,
    ensures
        Map::<Seq<char>, Seq<char>>::empty().insert(k1, v1).insert(k2, v2).insert(k3, v3).insert(
            k4,
            v4,
        ).insert(k5, v5).insert(k6, v6).insert(k7, v7).dom().len() == 7,
{
    let m0 = Map::<Seq<char>, Seq<char>>::empty();
    let m1 = m0.insert(k1, v1);
    let m2 = m1.insert(k2, v2);
    let m3 = m2.insert(k3, v3);
    let m4 = m3.insert(k4, v4);
    let m5 = m4.insert(k5, v5);
    let m6 = m5.insert(k6, v6);
    let m7 = m6.insert(k7, v7);
    assert(m0.dom() =~= Set::<Seq<char>>::empty());
    assert(m1.dom() =~= m0.dom().insert(k1));
    assert(m2.dom() =~= m1.dom().insert(k2));
    assert(m3.dom() =~= m2.dom().insert(k3));
    assert(m4.dom() =~= m3.dom().insert(k4));
    assert(m5.dom() =~= m4.dom().insert(k5));
    assert(m6.dom() =~= m5.dom().insert(k6));
    assert(m7.dom() =~= m6.dom().insert(k7));
    vstd::set::axiom_set_insert_len(m0.dom(), k1);
    vstd::set::axiom_set_insert_len(m1.dom(), k2);
    vstd::set::axiom_set_insert_len(m2.dom(), k3);
    vstd::set::axiom_set_insert_len(m3.dom(), k4);
    vstd::set::axiom_set_insert_len(m4.dom(), k5);
    vstd::set::axiom_set_insert_len(m5.dom(), k6);
    vstd::set::axiom_set_insert_len(m6.dom(), k7);
}

impl Device {
    /// Generates a spoofed Android identity.
    pub fn android() -> (r: Device)
        ensures
            android_wf(r),
    {
        let uuid = new_instance_id();
        let versions = android_app_versions();
        let version = pick(&versions);
        let ghost vi = choose|i: int| 0 <= i < versions@.len() && version == versions@[i];
        let os = rand_u8(9, 14);
        let ua = String::from_str("Reddit/").concat(version).concat("/Android ").concat(
            u64_to_string(os as u64).as_str(),
        );
        proof {
            assert(ua@ == android_user_agent_of(spec_android_app_versions()[vi], os as int));
        }
        let mut headers = HeaderMap::new();
        headers.insert(String::from_str("Client-Vendor-Id"), uuid.clone());
        headers.insert(String::from_str("X-Reddit-Device-Id"), uuid.clone());
        headers.insert(String::from_str("User-Agent"), ua);
        let initial_headers = headers.duplicate();
        proof {
            reveal_strlit("Client-Vendor-Id");
            reveal_strlit("X-Reddit-Device-Id");
            reveal_strlit("User-Agent");
            assert("Client-Vendor-Id"@.len() == 16);
            assert("X-Reddit-Device-Id"@.len() == 18);
            assert("User-Agent"@.len() == 10);
            lemma_three_key_dom(
                "Client-Vendor-Id"@,
                "X-Reddit-Device-Id"@,
                "User-Agent"@,
                uuid@,
                uuid@,
                headers@["User-Agent"@],
            );
        }
        Device {
            platform: Platform::Android,
            oauth_id: String::from_str(android_client_id()),
            instance_id: uuid,
            initial_headers,
            headers,
        }
    }

    /// Generates a spoofed iOS identity.
    pub fn ios() -> (r: Device)
        ensures
            ios_wf(r),
    {
        let uuid = new_instance_id();
        let app_versions = ios_app_versions();
        let version = pick(&app_versions);
        let ghost vi = choose|i: int| 0 <= i < app_versions@.len() && version == app_versions@[i];
        let os_versions = ios_os_versions();
        let os = pick(&os_versions);
        let ghost oi = choose|i: int| 0 <= i < os_versions@.len() && os == os_versions@[i];
        let ua = String::from_str("Reddit/").concat(version).concat("/iOS ").concat(os);
        let model = rand_u8(8, 15);
        let device_name = String::from_str("iPhone").concat(
            u64_to_string(model as u64).as_str(),
        ).concat(",1");
        let ghost ua_view = ua@;
        let ghost dn_view = device_name@;
        proof {
            assert(ua_view == ios_user_agent_of(
                spec_ios_app_versions()[vi],
                spec_ios_os_versions()[oi],
            ));
            assert(dn_view == ios_device_name_of(model as int));
        }

        let mut initial_headers = HeaderMap::new();
        initial_headers.insert(String::from_str("X-Reddit-DPR"), String::from_str("2"));
        initial_headers.insert(String::from_str("User-Agent"), ua.clone());
        initial_headers.insert(String::from_str("Device-Name"), device_name.clone());

        let mut headers = HeaderMap::new();
        headers.insert(String::from_str("X-Reddit-DPR"), String::from_str("2"));
        headers.insert(String::from_str("Device-Name"), device_name);
        headers.insert(String::from_str("User-Agent"), ua);
        headers.insert(String::from_str("Client-Vendor-Id"), uuid.clone());
        headers.insert(
            String::from_str("x-dev-ad-id"),
            String::from_str("00000000-0000-0000-0000-000000000000"),
        );
        headers.insert(
            String::from_str("Reddit-User_Id"),
            String::from_str("anonymous_browsing_mode"),
        );
        headers.insert(String::from_str("x-reddit-device-id"), uuid.clone());

        proof {
            reveal_strlit("X-Reddit-DPR");
            reveal_strlit("User-Agent");
            reveal_strlit("Device-Name");
            reveal_strlit("Client-Vendor-Id");
            reveal_strlit("x-dev-ad-id");
            reveal_strlit("Reddit-User_Id");
            reveal_strlit("x-reddit-device-id");
            assert("X-Reddit-DPR"@.len() == 12);
            assert("User-Agent"@.len() == 10);
            assert("Device-Name"@.len() == 11);
            assert("Client-Vendor-Id"@.len() == 16);
            assert("x-dev-ad-id"@.len() == 11);
            assert("Reddit-User_Id"@.len() == 14);
            assert("x-reddit-device-id"@.len() == 18);
            assert("Device-Name"@[0] == 'D');
            assert("x-dev-ad-id"@[0] == 'x');
            lemma_three_key_dom(
                "X-Reddit-DPR"@,
                "User-Agent"@,
                "Device-Name"@,
                "2"@,
                ua_view,
                dn_view,
            );
            lemma_seven_key_dom(
                "X-Reddit-DPR"@,
                "Device-Name"@,
                "User-Agent"@,
                "Client-Vendor-Id"@,
                "x-dev-ad-id"@,
                "Reddit-User_Id"@,
                "x-reddit-device-id"@,
                "2"@,
                dn_view,
                ua_view,
                uuid@,
                spec_placeholder_ad_id(),
                "anonymous_browsing_mode"@,
                uuid@,
            );
        }
        Device {
            platform: Platform::Ios,
            oauth_id: String::from_str(ios_client_id()),
            instance_id: uuid,
            initial_headers,
            headers,
        }
    }

    /// Generates an identity for a platform chosen uniformly at random.
    pub fn random() -> (r: Device)
        ensures
            device_wf(r),
    {
        if rand_bool() {
            Self::android()
        } else {
            Self::ios()
        }
    }
}

/// Every generated identity claims one of the two supported platforms and
/// carries that platform's required header names.
pub proof fn lemma_generated_identity_headers(d: Device)
    requires
        device_wf(d),
    ensures
        d.platform is Android || d.platform is Ios,
        d.platform is Android ==> d.headers@.contains_key("Client-Vendor-Id"@)
            && d.headers@.contains_key("X-Reddit-Device-Id"@) && d.headers@.contains_key(
            "User-Agent"@,
        ),
        d.platform is Ios ==> d.headers@.contains_key("X-Reddit-DPR"@)
            && d.headers@.contains_key("User-Agent"@) && d.headers@.contains_key("Device-Name"@)
            && d.headers@.contains_key("Client-Vendor-Id"@) && d.headers@.contains_key(
            "x-dev-ad-id"@,
        ) && d.headers@.contains_key("Reddit-User_Id"@) && d.headers@.contains_key(
            "x-reddit-device-id"@,
        ),
{
}

} // verus!
