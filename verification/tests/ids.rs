use rsipstack::sip::basic::{Method, Transport};
use rsipstack::sip::header::Header;
use rsipstack::sip::uri::{Host, HostWithPort, NameAddr, Param, Uri};
use rsipstack::transaction::builder::{Endpoint, EndpointBuilder};
use rsipstack::transaction::endpoint::EndpointOption;
use rsipstack::transaction::ids::{
    call_id_from, make_branch, make_call_id, make_tag, make_uuid_v4, make_via_branch, random_text,
    text_from, uuid_from, CallIdFormat,
};
use rsipstack::transport::sip_addr::SipAddr;

#[test]
fn test_random_text() {
    let text = random_text(10);
    assert_eq!(text.len(), 10);
    let branch = match make_via_branch() {
        Param::Branch(b) => format!(";branch={b}"),
        _ => panic!("no branch"),
    };
    assert_eq!(branch.len(), 27); // ;branch=z9hG4bK
}

fn assert_uuid_v4(s: &str) {
    assert_eq!(s.len(), 32);
    let chars: Vec<char> = s.chars().collect();
    for (i, c) in chars.iter().enumerate() {
        match i {
            12 => assert_eq!(*c, '4'),
            16 => assert!(matches!(c, '8' | '9' | 'a' | 'b')),
            _ => assert!(c.is_ascii_hexdigit() && !c.is_ascii_uppercase()),
        }
    }
}

#[test]
fn test_make_uuid_v4() {
    assert_uuid_v4(&make_uuid_v4());
    assert_ne!(make_uuid_v4(), make_uuid_v4());
}

#[test]
fn test_make_call_id() {
    let call_id = make_call_id(None, CallIdFormat::UuidWithSuffix);
    let (uuid, suffix) = call_id.split_once('@').unwrap();
    assert_uuid_v4(uuid);
    assert_eq!(suffix, "restsend.com");

    let call_id = make_call_id(Some("example.com"), CallIdFormat::UuidWithSuffix);
    let (uuid, suffix) = call_id.split_once('@').unwrap();
    assert_uuid_v4(uuid);
    assert_eq!(suffix, "example.com");

    let call_id = make_call_id(Some("example.com"), CallIdFormat::Uuid);
    assert_uuid_v4(&call_id);
    assert!(!call_id.contains('@'));

    let call_id = make_call_id(None, CallIdFormat::Uuid);
    assert_uuid_v4(&call_id);
}

#[test]
fn test_callid_format_default() {
    assert_eq!(CallIdFormat::default(), CallIdFormat::UuidWithSuffix);
    assert_eq!(
        EndpointOption::default().callid_format,
        CallIdFormat::UuidWithSuffix
    );
}

fn build_endpoint(option: EndpointOption) -> Endpoint {
    EndpointBuilder::new()
        .with_user_agent("rsipstack-test")
        .with_option(option)
        .build()
}

fn udp_sip_addr() -> SipAddr {
    SipAddr {
        transport: Some(Transport::Udp),
        addr: HostWithPort {
            host: Host::IpAddr(rsipstack::sip::basic::IpAddr::V4(0x7f000001)),
            port: Some(5060),
        },
    }
}

fn sip(user: Option<&str>, host: &str) -> Uri {
    Uri {
        scheme: Some(rsipstack::sip::basic::Scheme::Sip),
        user: user.map(|u| u.to_string()),
        host_with_port: HostWithPort { host: Host::Domain(host.to_string()), port: None },
        params: vec![],
    }
}

fn call_id_made_by(endpoint: &Endpoint) -> String {
    let top = endpoint.inner.get_via(Some(udp_sip_addr()), None).unwrap();
    let req = endpoint.inner.make_request(
        Method::Register,
        sip(None, "example.com"),
        top,
        NameAddr {
            display_name: None,
            uri: sip(Some("alice"), "example.com"),
            params: vec![Param::Tag(make_tag())],
        },
        NameAddr { display_name: None, uri: sip(Some("bob"), "example.com"), params: vec![] },
        1,
        None,
    );
    req.headers
        .iter()
        .find_map(|h| match h {
            Header::CallId(c) => Some(c.clone()),
            _ => None,
        })
        .unwrap()
}

#[test]
fn test_make_request_callid_format() {
    let endpoint = build_endpoint(EndpointOption::default());
    let call_id = call_id_made_by(&endpoint);
    let (uuid, suffix) = call_id.split_once('@').unwrap();
    assert_uuid_v4(uuid);
    assert_eq!(suffix, "restsend.com");

    let endpoint = build_endpoint(EndpointOption {
        callid_suffix: Some("example.com".to_string()),
        callid_format: CallIdFormat::Uuid,
        ..Default::default()
    });
    let call_id = call_id_made_by(&endpoint);
    assert_uuid_v4(&call_id);
    assert!(!call_id.contains('@'));
}

#[test]
fn tags_and_branches_have_their_form() {
    let tag = make_tag();
    assert_eq!(tag.len(), 8);
    assert!(tag.chars().all(|c| c.is_ascii_alphanumeric()));
    assert_ne!(make_tag(), make_tag());
    let branch = make_branch();
    assert!(branch.starts_with("z9hG4bK"));
    assert_eq!(branch.len(), 19);
}

#[test]
fn texts_follow_their_numbers() {
    assert_eq!(text_from(&vec![]), "");
    assert_eq!(text_from(&vec![0, 1, 61, 62]).len(), 4);
    assert_eq!(text_from(&vec![0, 62]), {
        let one = text_from(&vec![0]);
        format!("{one}{one}")
    });
    assert_uuid_v4(&uuid_from(&vec![0; 32]));
    assert_eq!(uuid_from(&vec![0; 32]), "00000000000040008000000000000000");
    assert_eq!(
        call_id_from("abc".to_string(), None, CallIdFormat::UuidWithSuffix),
        "abc@restsend.com"
    );
    assert_eq!(call_id_from("abc".to_string(), Some("x.org"), CallIdFormat::Uuid), "abc");
}
