//! Transparent redirection state: the monitored process set, the
//! redirector status machine, the table of learned connection owners, the
//! tracker of true original destinations, and the per-packet redirect
//! decision.  The driver that actually intercepts packets is the platform
//! loop's; every decision it takes comes from here.

use vstd::prelude::*;
use crate::handler::SockAddr;
use crate::packet::{
    is_tcp_ipv4, modify_destination, parse_packet, spec_modify_destination, spec_packet_fields,
};
use vstd::hash_map::HashMapWithView;
use vstd::hash_set::HashSetWithView;

verus! {

broadcast use vstd::std_specs::hash::group_hash_axioms;

/// The transport protocol of an intercepted connection.
#[derive(Clone, Copy, PartialEq, Eq, Structural)]
pub enum Protocol {
    Tcp,
    Udp,
}

/// How the redirector reaches the local proxy.
pub struct RedirectorConfig {
    pub proxy_port: u16,
    pub listen_addr: String,
}

impl Default for RedirectorConfig {
    /// The default endpoint: loopback, port 9527.
    fn default() -> (r: Self)
        ensures
            r.proxy_port == 9527,
            r.listen_addr@ == "127.0.0.1"@,
    {
        RedirectorConfig { proxy_port: 9527, listen_addr: "127.0.0.1".to_owned() }
    }
}

/// The redirector's lifecycle: Stopped to Starting to Running on start,
/// any state to Stopped on stop, Running to Error on a fatal capture
/// failure.
pub enum RedirectorStatus {
    Stopped,
    Starting,
    Running,
    Error { reason: String },
}

/// Mathematical model of the redirector status.
pub ghost enum StatusView {
    Stopped,
    Starting,
    Running,
    Error { reason: Seq<char> },
}

impl View for RedirectorStatus {
    type V = StatusView;

    open spec fn view(&self) -> StatusView {
        match self {
            RedirectorStatus::Stopped => StatusView::Stopped,
            RedirectorStatus::Starting => StatusView::Starting,
            RedirectorStatus::Running => StatusView::Running,
            RedirectorStatus::Error { reason } => StatusView::Error { reason: reason@ },
        }
    }
}

impl RedirectorStatus {
    /// Copy this status; the copy has the same model.
    pub fn duplicate(&self) -> (r: RedirectorStatus)
        ensures
            r@ == self@,
    {
        match self {
            RedirectorStatus::Stopped => RedirectorStatus::Stopped,
            RedirectorStatus::Starting => RedirectorStatus::Starting,
            RedirectorStatus::Running => RedirectorStatus::Running,
            RedirectorStatus::Error { reason } => RedirectorStatus::Error {
                reason: reason.clone(),
            },
        }
    }
}

/// A connection the redirector rewrote: who owned it, where it came from,
/// where it was sent, and where it was truly going.
pub struct ConnectionInfo {
    pub pid: u32,
    pub process_name: String,
    pub src_addr: SockAddr,
    pub dst_addr: SockAddr,
    pub original_dst: SockAddr,
    pub protocol: Protocol,
}

/// A socket endpoint pair packed into one key: source IP and port.
pub open spec fn spec_src_key(sa: SockAddr) -> u64 {
    ((sa.ip_a as int) * 0x1000000000000 + (sa.ip_b as int) * 0x10000000000 + (sa.ip_c as int)
        * 0x100000000 + (sa.ip_d as int) * 0x1000000 + (sa.port as int)) as u64
}

/// Pack a source address into its table key.
pub fn src_key(sa: &SockAddr) -> (r: u64)
    ensures
        r == spec_src_key(*sa),
{
    (sa.ip_a as u64) * 0x1000000000000 + (sa.ip_b as u64) * 0x10000000000 + (sa.ip_c as u64)
        * 0x100000000 + (sa.ip_d as u64) * 0x1000000 + (sa.port as u64)
}

/// A whole four-tuple packed into one key: source and destination, IP and
/// port each.
pub open spec fn spec_flow_key(src: SockAddr, dst: SockAddr) -> u128 {
    ((spec_src_key(src) as int) * 0x1000000000000 + (spec_src_key(dst) as int)) as u128
}

/// Pack a connection four-tuple into its table key.
pub fn flow_key(src: &SockAddr, dst: &SockAddr) -> (r: u128)
    ensures
        r == spec_flow_key(*src, *dst),
{
    (src_key(src) as u128) * 0x1000000000000 + (src_key(dst) as u128)
}

/// Remembers, for each rewritten connection, the destination it was truly
/// addressed to, so the transparent handler can reconstruct it.
pub struct ConnectionTracker {
    map: HashMapWithView<u64, SockAddr>,
}

impl ConnectionTracker {
    /// The tracked original destination by source endpoint.
    pub closed spec fn spec_map(&self) -> Map<u64, SockAddr> {
        self.map@
    }

    /// An empty tracker.
    pub fn new() -> (r: ConnectionTracker)
        ensures
            r.spec_map() == Map::<u64, SockAddr>::empty(),
    {
        ConnectionTracker { map: HashMapWithView::new() }
    }

    /// Record the original destination of a rewritten connection.
    pub fn track(&mut self, src: SockAddr, original_dst: SockAddr)
        ensures
            final(self).spec_map() == old(self).spec_map().insert(
                spec_src_key(src),
                original_dst,
            ),
    {
        let key = src_key(&src);
        self.map.insert(key, original_dst);
    }

    /// The original destination recorded for this source, if any.
    pub fn get_original(&self, src: &SockAddr) -> (r: Option<SockAddr>)
        ensures
            r is Some <==> self.spec_map().contains_key(spec_src_key(*src)),
            r is Some ==> r.unwrap() == self.spec_map()[spec_src_key(*src)],
    {
        let key = src_key(src);
        match self.map.get(&key) {
            Some(dst) => Some(*dst),
            None => None,
        }
    }
}

/// The passively learned association from connection four-tuples to the
/// process that owns them.
pub struct PidTable {
    map: HashMapWithView<u128, u32>,
}

impl PidTable {
    /// The owning process by connection four-tuple.
    pub closed spec fn spec_map(&self) -> Map<u128, u32> {
        self.map@
    }

    /// An empty table.
    pub fn new() -> (r: PidTable)
        ensures
            r.spec_map() == Map::<u128, u32>::empty(),
    {
        PidTable { map: HashMapWithView::new() }
    }

    /// Record that this four-tuple belongs to this process.
    pub fn learn(&mut self, src: SockAddr, dst: SockAddr, pid: u32)
        ensures
            final(self).spec_map() == old(self).spec_map().insert(
                spec_flow_key(src, dst),
                pid,
            ),
    {
        let key = flow_key(&src, &dst);
        self.map.insert(key, pid);
    }

    /// The process recorded for this four-tuple, if any.
    pub fn lookup(&self, src: &SockAddr, dst: &SockAddr) -> (r: Option<u32>)
        ensures
            r is Some <==> self.spec_map().contains_key(spec_flow_key(*src, *dst)),
            r is Some ==> r.unwrap() == self.spec_map()[spec_flow_key(*src, *dst)],
    {
        let key = flow_key(src, dst);
        match self.map.get(&key) {
            Some(pid) => Some(*pid),
            None => None,
        }
    }
}

/// What the redirector does with one intercepted packet: reinject it
/// rewritten towards the proxy and report the connection, or pass it
/// through untouched.
pub enum PacketAction {
    Redirect { packet: Vec<u8>, info: ConnectionInfo },
    Pass,
}

/// The transparent redirector: the monitored process set, the proxy
/// endpoint packets are rewritten towards, and the lifecycle status.
pub struct Redirector {
    config: RedirectorConfig,
    target_pids: HashSetWithView<u32>,
    status: RedirectorStatus,
}

impl Redirector {
    /// The monitored process set.
    pub closed spec fn pids(&self) -> Set<u32> {
        self.target_pids@
    }

    /// The current lifecycle status.
    pub closed spec fn spec_status(&self) -> StatusView {
        self.status@
    }

    /// The configuration the redirector was created with.
    pub closed spec fn spec_config(&self) -> RedirectorConfig {
        self.config
    }

    /// The port of the local proxy that packets are rewritten towards.
    pub fn proxy_port(&self) -> (r: u16)
        ensures
            r == self.spec_config().proxy_port,
    {
        self.config.proxy_port
    }

    /// A stopped redirector with no monitored process.
    pub fn new(config: RedirectorConfig) -> (r: Redirector)
        ensures
            r.pids() == Set::<u32>::empty(),
            r.spec_status() == StatusView::Stopped,
            r.spec_config() == config,
    {
        Redirector { config, target_pids: HashSetWithView::new(), status: RedirectorStatus::Stopped }
    }

    /// Monitor one more process.
    pub fn add_pid(&mut self, pid: u32)
        ensures
            final(self).pids() == old(self).pids().insert(pid),
            final(self).spec_status() == old(self).spec_status(),
            final(self).spec_config() == old(self).spec_config(),
    {
        self.target_pids.insert(pid);
    }

    /// Stop monitoring a process.
    pub fn remove_pid(&mut self, pid: u32)
        ensures
            final(self).pids() == old(self).pids().remove(pid),
            final(self).spec_status() == old(self).spec_status(),
            final(self).spec_config() == old(self).spec_config(),
    {
        self.target_pids.remove(&pid);
    }

    /// Replace the monitored set with exactly these processes.
    pub fn set_pids(&mut self, pids: Vec<u32>)
        ensures
            forall|p: u32| final(self).pids().contains(p) <==> pids@.contains(p),
            final(self).spec_status() == old(self).spec_status(),
            final(self).spec_config() == old(self).spec_config(),
    {
        self.target_pids.clear();
        let n = pids.len();
        let mut i: usize = 0;
        while i < n
            invariant
                n == pids@.len(),
                i <= n,
                forall|p: u32| self.target_pids@.contains(p) <==> pids@.take(i as int).contains(p),
                self.status@ == old(self).spec_status(),
                self.config == old(self).config,
            decreases n - i,
        {
            let ghost before = self.target_pids@;
            self.target_pids.insert(pids[i]);
            proof {
                assert forall|p: u32| self.target_pids@.contains(p) <==> pids@.take(
                    i + 1,
                ).contains(p) by {
                    if p == pids@[i as int] {
                        assert(pids@.take(i + 1)[i as int] == p);
                    } else {
                        assert(before.contains(p) <==> pids@.take(i as int).contains(p));
                        assert(pids@.take(i + 1).contains(p) <==> pids@.take(i as int).contains(
                            p,
                        )) by {
                            if pids@.take(i + 1).contains(p) {
                                let w = choose|w: int|
                                    0 <= w < i + 1 && #[trigger] pids@.take(i + 1)[w] == p;
                                assert(pids@.take(i as int)[w] == p);
                            } else if pids@.take(i as int).contains(p) {
                                let w = choose|w: int|
                                    0 <= w < i && #[trigger] pids@.take(i as int)[w] == p;
                                assert(pids@.take(i + 1)[w] == p);
                            }
                        }
                    }
                }
            }
            i = i + 1;
        }
        assert(pids@.take(n as int) =~= pids@);
    }

    /// Stop monitoring every process.
    pub fn clear_pids(&mut self)
        ensures
            final(self).pids() == Set::<u32>::empty(),
            final(self).spec_status() == old(self).spec_status(),
            final(self).spec_config() == old(self).spec_config(),
    {
        self.target_pids.clear();
    }

    /// Whether this process is monitored.
    pub fn contains_pid(&self, pid: u32) -> (r: bool)
        ensures
            r == self.pids().contains(pid),
    {
        self.target_pids.contains(&pid)
    }

    /// The current status, as a copy.
    pub fn status(&self) -> (r: RedirectorStatus)
        ensures
            r@ == self.spec_status(),
    {
        self.status.duplicate()
    }

    /// The start sequence has begun: Stopped becomes Starting.
    pub fn mark_starting(&mut self)
        requires
            old(self).spec_status() == StatusView::Stopped,
        ensures
            final(self).spec_status() == StatusView::Starting,
            final(self).pids() == old(self).pids(),
            final(self).spec_config() == old(self).spec_config(),
    {
        self.status = RedirectorStatus::Starting;
    }

    /// The capture handles are open: Starting becomes Running.
    pub fn mark_running(&mut self)
        requires
            old(self).spec_status() == StatusView::Starting,
        ensures
            final(self).spec_status() == StatusView::Running,
            final(self).pids() == old(self).pids(),
            final(self).spec_config() == old(self).spec_config(),
    {
        self.status = RedirectorStatus::Running;
    }

    /// Stop, from any state.
    pub fn mark_stopped(&mut self)
        ensures
            final(self).spec_status() == StatusView::Stopped,
            final(self).pids() == old(self).pids(),
            final(self).spec_config() == old(self).spec_config(),
    {
        self.status = RedirectorStatus::Stopped;
    }

    /// A fatal capture failure: Running becomes Error with the retained
    /// reason.
    pub fn mark_error(&mut self, reason: String)
        requires
            old(self).spec_status() == StatusView::Running,
        ensures
            final(self).spec_status() == (StatusView::Error { reason: reason@ }),
            final(self).pids() == old(self).pids(),
            final(self).spec_config() == old(self).spec_config(),
    {
        self.status = RedirectorStatus::Error { reason };
    }

    /// The packet filter the capture driver is opened with: TCP traffic
    /// bound for the web ports, loopback and the proxy's own port left out.
    pub fn capture_filter(&self) -> (r: String)
        ensures
            r@ == "tcp and !loopback and (tcp.DstPort == 80 or tcp.DstPort == 443) and localPort != "@
                + crate::handler::dec_digits(self.spec_config().proxy_port as nat),
    {
        let mut f =
            "tcp and !loopback and (tcp.DstPort == 80 or tcp.DstPort == 443) and localPort != "
            .to_owned();
        f.append(crate::handler::u32_to_string(self.config.proxy_port as u32).as_str());
        f
    }

    /// Decide what to do with one intercepted packet, given the process the
    /// passive layer attributed it to: a parseable TCP/IPv4 packet owned by
    /// a monitored process is rewritten towards the proxy and reported;
    /// everything else passes through untouched.
    pub fn decide_packet(&self, data: &Vec<u8>, pid: Option<u32>, proxy: SockAddr) -> (r:
        PacketAction)
        ensures
            (r is Redirect <==> is_tcp_ipv4(data@) && pid is Some && self.pids().contains(
                pid.unwrap(),
            )),
            r matches PacketAction::Redirect { ref packet, ref info } ==> {
                let f = spec_packet_fields(data@);
                &&& packet@ == spec_modify_destination(data@, proxy)
                &&& info.pid == pid.unwrap()
                &&& info.process_name@ == Seq::<char>::empty()
                &&& (info.src_addr.ip_a, info.src_addr.ip_b, info.src_addr.ip_c,
                info.src_addr.ip_d) == f.src_ip
                &&& info.src_addr.port as int == f.src_port
                &&& info.dst_addr == proxy
                &&& (info.original_dst.ip_a, info.original_dst.ip_b, info.original_dst.ip_c,
                info.original_dst.ip_d) == f.dst_ip
                &&& info.original_dst.port as int == f.dst_port
                &&& info.protocol == Protocol::Tcp
            },
    {
        let parsed = match parse_packet(data) {
            Some(p) => p,
            None => {
                return PacketAction::Pass;
            },
        };
        let p = match pid {
            Some(p) => p,
            None => {
                return PacketAction::Pass;
            },
        };
        if !self.contains_pid(p) {
            return PacketAction::Pass;
        }
        let mut packet = crate::capture::clone_bytes(data);
        modify_destination(&mut packet, proxy);
        let info = ConnectionInfo {
            pid: p,
            process_name: String::new(),
            src_addr: parsed.src,
            dst_addr: proxy,
            original_dst: parsed.dst,
            protocol: Protocol::Tcp,
        };
        PacketAction::Redirect { packet, info }
    }
}

} // verus!
