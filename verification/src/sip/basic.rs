//! Methods, transports, schemes and addresses.

use crate::text;
use vstd::prelude::*;

verus! {

#[derive(Clone, Copy, Debug, PartialEq, Eq, Structural)]
pub enum Method {
    Ack,
    Bye,
    Cancel,
    Info,
    Invite,
    Message,
    Notify,
    Options,
    PRack,
    Publish,
    Refer,
    Register,
    Subscribe,
    Update,
}

/// The version of the protocol.
#[derive(Clone, Copy, Debug, PartialEq, Eq, Structural)]
pub enum Version {
    V1,
    V2,
}

impl Method {
    /// The method's name on the wire.
    pub open spec fn spec_name(self) -> Seq<char> {
        match self {
            Method::Ack => "ACK"@,
            Method::Bye => "BYE"@,
            Method::Cancel => "CANCEL"@,
            Method::Info => "INFO"@,
            Method::Invite => "INVITE"@,
            Method::Message => "MESSAGE"@,
            Method::Notify => "NOTIFY"@,
            Method::Options => "OPTIONS"@,
            Method::PRack => "PRACK"@,
            Method::Publish => "PUBLISH"@,
            Method::Refer => "REFER"@,
            Method::Register => "REGISTER"@,
            Method::Subscribe => "SUBSCRIBE"@,
            Method::Update => "UPDATE"@,
        }
    }

    pub fn name(&self) -> (name: &'static str)
        ensures
            name@ == self.spec_name(),
    {
        match self {
            Method::Ack => "ACK",
            Method::Bye => "BYE",
            Method::Cancel => "CANCEL",
            Method::Info => "INFO",
            Method::Invite => "INVITE",
            Method::Message => "MESSAGE",
            Method::Notify => "NOTIFY",
            Method::Options => "OPTIONS",
            Method::PRack => "PRACK",
            Method::Publish => "PUBLISH",
            Method::Refer => "REFER",
            Method::Register => "REGISTER",
            Method::Subscribe => "SUBSCRIBE",
            Method::Update => "UPDATE",
        }
    }

    /// Whether `s` is the name of some method, in letters of either case.
    pub open spec fn is_name(s: Seq<char>) -> bool {
        exists|m: Method| text::same_ignoring_case(s, #[trigger] m.spec_name())
    }

    /// Tests for a method's name.
    pub fn names_method(s: &str) -> (found: bool)
        ensures
            found == Method::is_name(s@),
    {
        let all: [Method; 14] = [
            Method::Ack,
            Method::Bye,
            Method::Cancel,
            Method::Info,
            Method::Invite,
            Method::Message,
            Method::Notify,
            Method::Options,
            Method::PRack,
            Method::Publish,
            Method::Refer,
            Method::Register,
            Method::Subscribe,
            Method::Update,
        ];
        let mut i: usize = 0;
        while i < 14
            invariant
                i <= 14,
                forall|j: int|
                    0 <= j < i ==> !text::same_ignoring_case(s@, (#[trigger] all@[j]).spec_name()),
            decreases 14 - i,
        {
            if text::eq_ignore_ascii_case(s, all[i].name()) {
                assert(text::same_ignoring_case(s@, all@[i as int].spec_name()));
                return true;
            }
            i = i + 1;
        }
        assert forall|m: Method| !text::same_ignoring_case(s@, #[trigger] m.spec_name()) by {
            let j: int = match m {
                Method::Ack => 0,
                Method::Bye => 1,
                Method::Cancel => 2,
                Method::Info => 3,
                Method::Invite => 4,
                Method::Message => 5,
                Method::Notify => 6,
                Method::Options => 7,
                Method::PRack => 8,
                Method::Publish => 9,
                Method::Refer => 10,
                Method::Register => 11,
                Method::Subscribe => 12,
                Method::Update => 13,
            };
            assert(all@[j] == m);
        }
        false
    }
}

#[derive(Clone, Copy, Debug, PartialEq, Eq, Structural)]
pub enum Transport {
    Udp,
    Tcp,
    Tls,
    Sctp,
    TlsSctp,
    Ws,
    Wss,
}

/// The transport that holds where none is named.
pub open spec fn or_udp(t: Option<Transport>) -> Transport {
    match t {
        Some(t) => t,
        None => Transport::Udp,
    }
}

#[derive(Clone, Copy, Debug, PartialEq, Eq, Structural)]
pub enum Scheme {
    Sip,
    Sips,
    Tel,
}

/// An address of the network layer, as a number in network order.
#[derive(Clone, Copy, Debug, PartialEq, Eq, Structural)]
pub enum IpAddr {
    V4(u32),
    V6(u128),
}

impl IpAddr {
    /// The addresses of the host itself: `127.0.0.0/8` and `::1`.
    pub open spec fn spec_is_loopback(self) -> bool {
        match self {
            IpAddr::V4(n) => n / 0x1000000 == 127,
            IpAddr::V6(n) => n == 1,
        }
    }

    pub open spec fn spec_is_unspecified(self) -> bool {
        match self {
            IpAddr::V4(n) => n == 0,
            IpAddr::V6(n) => n == 0,
        }
    }

    pub fn is_loopback(&self) -> (r: bool)
        ensures
            r == self.spec_is_loopback(),
    {
        match self {
            IpAddr::V4(n) => *n / 0x1000000 == 127,
            IpAddr::V6(n) => *n == 1,
        }
    }

    pub fn is_unspecified(&self) -> (r: bool)
        ensures
            r == self.spec_is_unspecified(),
    {
        match self {
            IpAddr::V4(n) => *n == 0,
            IpAddr::V6(n) => *n == 0,
        }
    }
}

}
