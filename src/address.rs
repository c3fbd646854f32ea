//! Proxy and destination addresses as plain values.
use vstd::prelude::*;
use crate::wire::push_all;
use vstd::string::StringSliceAdditionalSpecFns;

verus! {

/// A resolved socket address of a proxy.
#[derive(Debug, Clone, Copy, PartialEq, Eq)]
pub enum SocketAddress {
    V4([u8; 4], u16),
    V6([u8; 16], u16),
}

/// Where the proxy is asked to connect to.
#[derive(Debug, PartialEq, Eq)]
pub enum DestinationAddress {
    Ipv4([u8; 4], u16),
    Ipv6([u8; 16], u16),
    /// A host name, as its bytes, and a port.
    DomainName(Vec<u8>, u16),
}

/// The mathematical value of a destination.
pub enum DestinationView {
    Ipv4(Seq<u8>, u16),
    Ipv6(Seq<u8>, u16),
    DomainName(Seq<u8>, u16),
}

impl DestinationView {
    /// The address has the length its kind requires.
    pub open spec fn wf(self) -> bool {
        match self {
            DestinationView::Ipv4(ip, _) => ip.len() == 4,
            DestinationView::Ipv6(ip, _) => ip.len() == 16,
            DestinationView::DomainName(_, _) => true,
        }
    }

    pub open spec fn port(self) -> u16 {
        match self {
            DestinationView::Ipv4(_, p) => p,
            DestinationView::Ipv6(_, p) => p,
            DestinationView::DomainName(_, p) => p,
        }
    }
}

impl View for DestinationAddress {
    type V = DestinationView;

    open spec fn view(&self) -> DestinationView {
        match self {
            DestinationAddress::Ipv4(ip, p) => DestinationView::Ipv4(ip@, *p),
            DestinationAddress::Ipv6(ip, p) => DestinationView::Ipv6(ip@, *p),
            DestinationAddress::DomainName(name, p) => DestinationView::DomainName(name@, *p),
        }
    }
}


pub const DOT: u8 = 0x2E;
pub const DIGIT_ZERO: u8 = 0x30;
pub const DIGIT_NINE: u8 = 0x39;

pub open spec fn is_digit(b: u8) -> bool {
    DIGIT_ZERO <= b <= DIGIT_NINE
}

/// The decimal value of a string of digits.
pub open spec fn digits_value(t: Seq<u8>) -> nat
    decreases t.len(),
{
    if t.len() == 0 {
        0
    } else {
        digits_value(t.drop_last()) * 10 + (t.last() - DIGIT_ZERO) as nat
    }
}

/// The text between the dots of `s`, in order.
pub open spec fn dot_fields(s: Seq<u8>) -> Seq<Seq<u8>>
    decreases s.len(),
{
    if s.len() == 0 {
        seq![Seq::empty()]
    } else if s.last() == DOT {
        dot_fields(s.drop_last()).push(Seq::empty())
    } else {
        let f = dot_fields(s.drop_last());
        f.update(f.len() - 1, f.last().push(s.last()))
    }
}

/// At most three digits, no leading zero, a value of at most 255.
pub open spec fn octet_prefix(t: Seq<u8>) -> bool {
    &&& t.len() <= 3
    &&& forall|j: int| 0 <= j < t.len() ==> is_digit(#[trigger] t[j])
    &&& t.len() > 1 ==> t[0] != DIGIT_ZERO
    &&& digits_value(t) <= 255
}

/// One decimal octet of a dotted IPv4 address.
pub open spec fn octet_text(t: Seq<u8>) -> bool {
    t.len() >= 1 && octet_prefix(t)
}

/// The address that `s` writes in dotted decimal (`192.0.2.1`), if it
/// writes one.
pub open spec fn ipv4_of(s: Seq<u8>) -> Option<Seq<u8>> {
    let f = dot_fields(s);
    if f.len() == 4 && forall|j: int| 0 <= j < 4 ==> octet_text(#[trigger] f[j]) {
        Some(Seq::new(4, |j: int| digits_value(f[j]) as u8))
    } else {
        None
    }
}

pub proof fn lemma_dot_fields_nonempty(s: Seq<u8>)
    ensures
        dot_fields(s).len() >= 1,
    decreases s.len(),
{
    if s.len() > 0 {
        lemma_dot_fields_nonempty(s.drop_last());
    }
}

/// Reads `host` as a dotted-decimal IPv4 address.
pub fn ipv4_literal(host: &[u8]) -> (r: Option<[u8; 4]>)
    ensures
        match r {
            Some(ip) => ipv4_of(host@) == Some(ip@),
            None => ipv4_of(host@) is None,
        },
{
    let mut vals: Vec<u8> = Vec::new();
    let mut cur: u16 = 0;
    let mut cur_len: usize = 0;
    let mut ok: bool = true;
    let mut i: usize = 0;
    proof {
        assert(host@.subrange(0, 0) == Seq::<u8>::empty());
    }
    while i < host.len()
        invariant
            0 <= i <= host@.len(),
            ({
                let f = dot_fields(host@.subrange(0, i as int));
                &&& f.len() >= 1
                &&& ok == (f.len() <= 4 && (forall|j: int| 0 <= j < f.len() - 1 ==> octet_text(#[trigger] f[j]))
                    && octet_prefix(f.last()))
                &&& ok ==> vals@.len() == f.len() - 1
                &&& ok ==> forall|j: int| 0 <= j < vals@.len() ==> #[trigger] vals@[j] == digits_value(f[j])
                &&& ok ==> cur_len == f.last().len() && cur == digits_value(f.last())
            }),
        decreases host@.len() - i,
    {
        let b = host[i];
        let ghost prev = host@.subrange(0, i as int);
        let ghost next = host@.subrange(0, i + 1);
        proof {
            assert(next.drop_last() == prev);
            assert(next.last() == b);
            lemma_dot_fields_nonempty(prev);
        }
        let ghost fp = dot_fields(prev);
        let ghost fnx = dot_fields(next);
        if b == DOT {
            assert(fnx == fp.push(Seq::<u8>::empty()));
            if ok {
                if cur_len == 0 || vals.len() == 3 {
                    ok = false;
                } else {
                    vals.push(cur as u8);
                    cur = 0;
                    cur_len = 0;
                    assert(octet_text(fp.last()));
                    assert(fnx.last() == Seq::<u8>::empty());
                    assert(octet_prefix(fnx.last()));
                    assert(digits_value(Seq::<u8>::empty()) == 0);
                    assert forall|j: int| 0 <= j < fnx.len() - 1 implies octet_text(#[trigger] fnx[j]) by {
                        assert(fnx[j] == fp[j]);
                    }
                    assert forall|j: int| 0 <= j < vals@.len() implies #[trigger] vals@[j] == digits_value(fnx[j]) by {
                        assert(fnx[j] == fp[j]);
                    }
                }
            }
            if !ok {
                assert(!(fnx.len() <= 4 && (forall|j: int| 0 <= j < fnx.len() - 1 ==> octet_text(#[trigger] fnx[j]))
                    && octet_prefix(fnx.last()))) by {
                    if fnx.len() <= 4 && (forall|j: int| 0 <= j < fnx.len() - 1 ==> octet_text(#[trigger] fnx[j])) {
                        assert(fnx[fp.len() - 1] == fp.last());
                        assert(octet_text(fp.last()));
                        assert forall|j: int| 0 <= j < fp.len() - 1 implies octet_text(#[trigger] fp[j]) by {
                            assert(fnx[j] == fp[j]);
                        }
                    }
                }
            }
        } else {
            let ghost t = fp.last().push(b);
            assert(fnx == fp.update(fp.len() - 1, t));
            assert(t.drop_last() == fp.last());
            assert(fnx.last() == t);
            assert forall|j: int| 0 <= j < fnx.len() - 1 implies fnx[j] == fp[j] by {}
            if ok {
                if b < DIGIT_ZERO || b > DIGIT_NINE {
                    ok = false;
                    assert(!is_digit(t[t.len() - 1]));
                } else {
                    let v: u16 = cur * 10 + (b - DIGIT_ZERO) as u16;
                    if cur_len == 3 || v > 255 || (cur_len == 1 && cur == 0) {
                        ok = false;
                        if cur_len == 1 && cur == 0 {
                            assert(fp.last().len() == 1);
                            assert(digits_value(fp.last().drop_last()) == 0) by {
                                assert(fp.last().drop_last() == Seq::<u8>::empty());
                            }
                            assert(t[0] == DIGIT_ZERO);
                        }
                    } else {
                        assert(digits_value(t) == digits_value(fp.last()) * 10 + (b - DIGIT_ZERO) as nat);
                        cur = v;
                        cur_len = cur_len + 1;
                        assert(forall|j: int| 0 <= j < t.len() ==> is_digit(#[trigger] t[j]));
                        assert(t.len() > 1 ==> t[0] == fp.last()[0]);
                        proof {
                            if fp.last().len() == 1 {
                                assert(fp.last().drop_last() == Seq::<u8>::empty());
                                assert(digits_value(Seq::<u8>::empty()) == 0);
                                assert(fp.last().last() == fp.last()[0]);
                                assert(digits_value(fp.last()) == (fp.last()[0] - DIGIT_ZERO) as nat);
                            }
                        }
                        assert(octet_prefix(t));
                        assert(fnx.len() == fp.len());
                    }
                }
            }
            if !ok {
                assert(!(fnx.len() <= 4 && (forall|j: int| 0 <= j < fnx.len() - 1 ==> octet_text(#[trigger] fnx[j]))
                    && octet_prefix(fnx.last()))) by {
                    if fnx.len() <= 4 && (forall|j: int| 0 <= j < fnx.len() - 1 ==> octet_text(#[trigger] fnx[j]))
                        && octet_prefix(t) {
                        assert forall|j: int| 0 <= j < fp.last().len() implies is_digit(#[trigger] fp.last()[j]) by {
                            assert(fp.last()[j] == t[j]);
                        }
                        if fp.last().len() > 1 {
                            assert(fp.last()[0] == t[0]);
                        }
                        assert(octet_prefix(fp.last()));
                        assert forall|j: int| 0 <= j < fp.len() - 1 implies octet_text(#[trigger] fp[j]) by {
                            assert(fnx[j] == fp[j]);
                        }
                    }
                }
            }
        }
        i = i + 1;
    }
    proof {
        assert(host@.subrange(0, host@.len() as int) == host@);
    }
    if ok && vals.len() == 3 && cur_len >= 1 {
        let ip: [u8; 4] = [vals[0], vals[1], vals[2], cur as u8];
        let ghost f = dot_fields(host@);
        assert(forall|j: int| 0 <= j < 4 ==> octet_text(#[trigger] f[j]));
        assert(ip@ == Seq::new(4, |j: int| digits_value(f[j]) as u8));
        Some(ip)
    } else {
        None
    }
}

impl DestinationAddress {
    /// A destination given by host name.
    pub fn domain(host: &str, port: u16) -> (r: DestinationAddress)
        ensures
            r@ == DestinationView::DomainName(host.spec_bytes(), port),
    {
        let mut name: Vec<u8> = Vec::new();
        push_all(&mut name, host.as_bytes());
        DestinationAddress::DomainName(name, port)
    }

    /// The destination that `host` names: an IPv4 address when it is one in
    /// dotted decimal, else a host name.
    pub fn from_host(host: &str, port: u16) -> (r: DestinationAddress)
        ensures
            r@ == match ipv4_of(host.spec_bytes()) {
                Some(ip) => DestinationView::Ipv4(ip, port),
                None => DestinationView::DomainName(host.spec_bytes(), port),
            },
    {
        match ipv4_literal(host.as_bytes()) {
            Some(ip) => DestinationAddress::Ipv4(ip, port),
            None => DestinationAddress::domain(host, port),
        }
    }

    /// The port to connect to.
    pub fn port(&self) -> (r: u16)
        ensures
            r == self@.port(),
    {
        match self {
            DestinationAddress::Ipv4(_, p) => *p,
            DestinationAddress::Ipv6(_, p) => *p,
            DestinationAddress::DomainName(_, p) => *p,
        }
    }
}

} // verus!
