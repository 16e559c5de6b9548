//! The port-forward registry: a table of active local port-forwards,
//! keyed by local port. Starting a forward on an occupied port is
//! rejected; stopping removes the entry and hands back what was stored.
//! Process handling stays outside the library; callers record the pid.

use vstd::prelude::*;

verus! {

/// One active port-forward, as plain values.
pub struct PortForwardInfo {
    pub id: String,
    pub context: String,
    pub namespace: String,
    pub service_name: String,
    pub service_port: u16,
    pub local_port: u16,
    pub pid: u32,
}

/// The mathematical image of one port-forward.
pub ghost struct InfoD {
    pub id: Seq<char>,
    pub context: Seq<char>,
    pub namespace: Seq<char>,
    pub service_name: Seq<char>,
    pub service_port: u16,
    pub local_port: u16,
    pub pid: u32,
}

impl View for PortForwardInfo {
    type V = InfoD;

    open spec fn view(&self) -> InfoD {
        InfoD {
            id: self.id@,
            context: self.context@,
            namespace: self.namespace@,
            service_name: self.service_name@,
            service_port: self.service_port,
            local_port: self.local_port,
            pid: self.pid,
        }
    }
}

/// The body of a request to start a port-forward.
pub struct PortForwardRequest {
    pub context: String,
    pub namespace: String,
    pub service_name: String,
    pub service_port: u16,
    pub local_port: u16,
}

/// An error reply carrying one message.
pub struct ErrorResponse {
    pub message: String,
}

/// Whether some entry occupies the port.
pub open spec fn contains_port(s: Seq<InfoD>, port: u16) -> bool {
    exists|i: int| 0 <= i < s.len() && (#[trigger] s[i]).local_port == port
}

/// Whether no two entries share a local port.
pub open spec fn ports_unique(s: Seq<InfoD>) -> bool {
    forall|i: int, j: int|
        0 <= i < j < s.len() ==> (#[trigger] s[i]).local_port != (#[trigger] s[j]).local_port
}

/// The images of a list of entries.
pub open spec fn infos_view(s: Seq<PortForwardInfo>) -> Seq<InfoD> {
    s.map_values(|e: PortForwardInfo| e@)
}

/// The active forwards, in insertion order, keyed by local port.
pub struct PortForwardRegistry {
    entries: Vec<PortForwardInfo>,
}

impl View for PortForwardRegistry {
    type V = Seq<InfoD>;

    closed spec fn view(&self) -> Seq<InfoD> {
        infos_view(self.entries@)
    }
}

/// Copies one entry, preserving its image.
fn clone_info(e: &PortForwardInfo) -> (r: PortForwardInfo)
    ensures
        r@ == e@,
{
    PortForwardInfo {
        id: e.id.clone(),
        context: e.context.clone(),
        namespace: e.namespace.clone(),
        service_name: e.service_name.clone(),
        service_port: e.service_port,
        local_port: e.local_port,
        pid: e.pid,
    }
}

impl PortForwardRegistry {
    /// An empty registry.
    pub fn new() -> (r: Self)
        ensures
            r@ == Seq::<InfoD>::empty(),
    {
        let r = PortForwardRegistry { entries: Vec::new() };
        proof {
            assert(r@ =~= Seq::<InfoD>::empty());
        }
        r
    }

    /// Whether the port is occupied by an active forward.
    pub fn occupied(&self, port: u16) -> (b: bool)
        ensures
            b == contains_port(self@, port),
    {
        let mut i: usize = 0;
        while i < self.entries.len()
            invariant
                i <= self.entries.len(),
                self@ == infos_view(self.entries@),
                forall|j: int| 0 <= j < i ==> (#[trigger] self@[j]).local_port != port,
            decreases self.entries.len() - i,
        {
            if self.entries[i].local_port == port {
                assert(self@[i as int].local_port == port);
                return true;
            }
            assert(self@[i as int].local_port != port);
            i = i + 1;
        }
        false
    }

    /// Records a started forward. Rejected, leaving the registry
    /// unchanged, exactly when the local port is already occupied; port
    /// uniqueness is preserved either way.
    pub fn register(&mut self, info: PortForwardInfo) -> (r: Result<(), ErrorResponse>)
        ensures
            (r is Err) <==> contains_port(old(self)@, info.local_port),
            r is Err ==> final(self)@ == old(self)@,
            r is Ok ==> final(self)@ == old(self)@.push(info@),
            ports_unique(old(self)@) ==> ports_unique(final(self)@),
    {
        if self.occupied(info.local_port) {
            return Err(
                ErrorResponse { message: "Port is already in use by another forward".to_owned() },
            );
        }
        let ghost pre = self@;
        let ghost infov = info@;
        self.entries.push(info);
        proof {
            assert(self@ =~= pre.push(infov));
            if ports_unique(pre) {
                assert forall|i: int, j: int| 0 <= i < j < self@.len() implies (
                #[trigger] self@[i]).local_port != (#[trigger] self@[j]).local_port by {
                    if j == self@.len() - 1 {
                        if self@[i].local_port == infov.local_port {
                            assert(contains_port(pre, infov.local_port));
                        }
                    }
                }
            }
        }
        Ok(())
    }

    /// Removes the forward on the port, handing its record back; `None`,
    /// with the registry unchanged, exactly when the port is free.
    pub fn remove(&mut self, port: u16) -> (r: Option<PortForwardInfo>)
        ensures
            (r is Some) <==> contains_port(old(self)@, port),
            r is Some ==> (r->0)@.local_port == port,
            r is None ==> final(self)@ == old(self)@,
            r is Some ==> exists|i: int|
                0 <= i < old(self)@.len() && old(self)@[i] == (r->0)@ && final(self)@ == old(
                    self,
                )@.remove(i),
    {
        let ghost pre = self@;
        let mut i: usize = 0;
        while i < self.entries.len()
            invariant
                i <= self.entries.len(),
                self@ == infos_view(self.entries@),
                self@ == pre,
                pre == old(self)@,
                forall|j: int| 0 <= j < i ==> (#[trigger] self@[j]).local_port != port,
            decreases self.entries.len() - i,
        {
            if self.entries[i].local_port == port {
                proof {
                    assert(self@[i as int].local_port == port);
                    assert(pre[i as int].local_port == port);
                    assert(contains_port(pre, port));
                }
                let e = self.entries.remove(i);
                proof {
                    assert(e@ == pre[i as int]);
                    assert(self@ =~= pre.remove(i as int));
                    assert(0 <= (i as int) < pre.len() && pre[i as int] == e@ && self@
                        == pre.remove(i as int));
                }
                return Some(e);
            }
            assert(self@[i as int].local_port != port);
            i = i + 1;
        }
        None
    }

    /// The active forwards, in insertion order.
    pub fn list(&self) -> (r: Vec<PortForwardInfo>)
        ensures
            infos_view(r@) == self@,
    {
        let mut r: Vec<PortForwardInfo> = Vec::new();
        let mut i: usize = 0;
        while i < self.entries.len()
            invariant
                i <= self.entries.len(),
                self@ == infos_view(self.entries@),
                infos_view(r@) == self@.take(i as int),
            decreases self.entries.len() - i,
        {
            let e = clone_info(&self.entries[i]);
            let ghost ed = e@;
            let ghost rpre = r@;
            r.push(e);
            proof {
                assert(ed == self@[i as int]);
                assert(infos_view(r@) =~= infos_view(rpre).push(ed));
                assert(infos_view(r@) =~= self@.take(i + 1 as int));
            }
            i = i + 1;
        }
        proof {
            assert(self@.take(self@.len() as int) =~= self@);
        }
        r
    }
}

} // verus!
