use vstd::prelude::*;

use crate::bridge::Command;
use crate::decode::{decodes_to, parse_data, NotificationRequest};
use crate::hints::Hints;
use crate::types::Properties;

verus! {

/// Allocation rule on the model: `(returned id, counter after)`. A zero
/// `replaces_id` advances the counter and takes its new value; any other
/// value is handed back as it is and leaves the counter alone.
pub open spec fn allocation(last: int, replaces_id: u32) -> (int, int) {
    if replaces_id == 0 {
        (last + 1, last + 1)
    } else {
        (replaces_id as int, last)
    }
}

/// The counter after a run of requests, starting from `last`.
pub open spec fn counter_after(last: int, reqs: Seq<u32>) -> int
    decreases reqs.len(),
{
    if reqs.len() == 0 {
        last
    } else {
        allocation(counter_after(last, reqs.drop_last()), reqs.last()).1
    }
}

/// The ids returned, one per request, for a run of requests starting
/// from counter value `last`.
pub open spec fn issued(last: int, reqs: Seq<u32>) -> Seq<int> {
    Seq::new(reqs.len(), |i: int| allocation(counter_after(last, reqs.take(i)), reqs[i]).0)
}

/// The counter never goes down along a run of requests.
pub proof fn lemma_counter_monotone(last: int, reqs: Seq<u32>, k: int, m: int)
    requires
        0 <= k <= m <= reqs.len(),
    ensures
        counter_after(last, reqs.take(k)) <= counter_after(last, reqs.take(m)),
    decreases m - k,
{
    if k < m {
        lemma_counter_monotone(last, reqs, k, m - 1);
        assert(reqs.take(m).drop_last() == reqs.take(m - 1));
    }
}

/// Over any run of requests, the ids handed out for `replaces_id == 0`
/// are larger than the starting counter and strictly increase: a fresh id
/// never repeats an earlier one.
pub proof fn lemma_fresh_ids_increase(last: int, reqs: Seq<u32>, i: int, j: int)
    requires
        0 <= i < j < reqs.len(),
        reqs[i] == 0,
        reqs[j] == 0,
    ensures
        last < issued(last, reqs)[i],
        issued(last, reqs)[i] < issued(last, reqs)[j],
{
    lemma_counter_monotone(last, reqs, 0, i);
    lemma_counter_monotone(last, reqs, i + 1, j);
    assert(reqs.take(0).len() == 0);
    assert(reqs.take(i + 1).drop_last() == reqs.take(i));
}

/// Over any run of requests, a request with a non-zero `replaces_id`
/// gets that id back, whether or not it is live.
pub proof fn lemma_replacing_id_kept(last: int, reqs: Seq<u32>, i: int)
    requires
        0 <= i < reqs.len(),
        reqs[i] != 0,
    ensures
        issued(last, reqs)[i] == reqs[i] as int,
{
}

/// The protocol side of the service: owns the id counter and turns the
/// interface's method calls into commands for the presentation side.
pub struct NotificationServer {
    next_id: u32,
    props: Properties,
    fresh: Ghost<Seq<u32>>,
}

impl NotificationServer {
    /// The last id handed out for a fresh notification (0 before any).
    pub closed spec fn last_id(&self) -> u32 {
        self.next_id
    }

    pub closed spec fn props(&self) -> Properties {
        self.props
    }

    /// The ids handed out so far for `replaces_id == 0`, in order.
    pub closed spec fn fresh_ids(&self) -> Seq<u32> {
        self.fresh@
    }

    /// Fresh ids strictly increase over the server's life, and none is
    /// above the counter.
    pub open spec fn wf(&self) -> bool {
        &&& forall|i: int, j: int|
            0 <= i < j < self.fresh_ids().len() ==> self.fresh_ids()[i] < self.fresh_ids()[j]
        &&& forall|i: int| 0 <= i < self.fresh_ids().len() ==> self.fresh_ids()[i] <= self.last_id()
    }

    /// A server that has handed out no id yet.
    pub fn new(props: Properties) -> (r: NotificationServer)
        ensures
            r.last_id() == 0,
            r.props() == props,
            r.fresh_ids().len() == 0,
            r.wf(),
    {
        NotificationServer { next_id: 0, props, fresh: Ghost(Seq::empty()) }
    }

    /// The last id handed out for a fresh notification (0 before any).
    pub fn last_issued(&self) -> (r: u32)
        ensures
            r == self.last_id(),
    {
        self.next_id
    }

    /// Whether a call with this `replaces_id` can get an id: a fresh id
    /// needs the counter to have room left.
    pub open spec fn can_allocate(&self, replaces_id: u32) -> bool {
        replaces_id != 0 || self.last_id() < u32::MAX
    }

    /// The id for a `Notify` call: the next counter value for
    /// `replaces_id == 0`, else `replaces_id` itself, live or not.
    pub fn allocate_id(&mut self, replaces_id: u32) -> (r: u32)
        requires
            old(self).wf(),
            old(self).can_allocate(replaces_id),
        ensures
            final(self).wf(),
            replaces_id == 0 ==> final(self).fresh_ids() == old(self).fresh_ids().push(r),
            replaces_id == 0 ==> forall|i: int|
                0 <= i < old(self).fresh_ids().len() ==> old(self).fresh_ids()[i] < r,
            replaces_id != 0 ==> final(self).fresh_ids() == old(self).fresh_ids(),
            r as int == allocation(old(self).last_id() as int, replaces_id).0,
            final(self).last_id() as int == allocation(old(self).last_id() as int, replaces_id).1,
            final(self).props() == old(self).props(),
            r != 0,
    {
        if replaces_id == 0 {
            self.next_id = self.next_id + 1;
            self.fresh = Ghost(self.fresh@.push(self.next_id));
            self.next_id
        } else {
            replaces_id
        }
    }

    /// Name, vendor, version and protocol version "1.2".
    pub fn get_server_information(&self) -> (r: (String, String, String, String))
        ensures
            r.0 == self.props().name,
            r.1 == self.props().vendor,
            r.2 == self.props().version,
            r.3@ == "1.2"@,
    {
        (
            self.props.name.clone(),
            self.props.vendor.clone(),
            self.props.version.clone(),
            "1.2".to_owned(),
        )
    }

    /// The optional features this server supports.
    pub fn get_capabilities(&self) -> (r: Vec<String>)
        ensures
            r@ == self.props().capabilities@,
    {
        let caps = &self.props.capabilities;
        let mut out: Vec<String> = Vec::new();
        let mut i: usize = 0;
        while i < caps.len()
            invariant
                0 <= i <= caps@.len(),
                out@ == caps@.take(i as int),
            decreases caps@.len() - i,
        {
            out.push(caps[i].clone());
            i = i + 1;
            assert(out@ == caps@.take(i as int));
        }
        assert(caps@.take(i as int) == caps@);
        out
    }

    /// Handles `Notify`: allocates the id by the replace-or-create rule,
    /// decodes the request, and gives back the id with the `Open` command
    /// for the presentation side. Hint content never makes it fail.
    pub fn notify(
        &mut self,
        app_name: String,
        replaces_id: u32,
        app_icon: String,
        summary: String,
        body: String,
        actions: Vec<String>,
        hints: Hints,
        expire_timeout: i32,
    ) -> (r: (u32, Command))
        requires
            old(self).wf(),
            old(self).can_allocate(replaces_id),
            hints.wf(),
        ensures
            final(self).wf(),
            replaces_id == 0 ==> final(self).fresh_ids() == old(self).fresh_ids().push(r.0),
            replaces_id == 0 ==> forall|i: int|
                0 <= i < old(self).fresh_ids().len() ==> old(self).fresh_ids()[i] < r.0,
            replaces_id != 0 ==> final(self).fresh_ids() == old(self).fresh_ids(),
            r.0 as int == allocation(old(self).last_id() as int, replaces_id).0,
            final(self).last_id() as int == allocation(old(self).last_id() as int, replaces_id).1,
            final(self).props() == old(self).props(),
            replaces_id != 0 ==> r.0 == replaces_id,
            r.0 != 0,
            r.1 matches Command::Open(id, data) && id == r.0 && decodes_to(
                app_name,
                app_icon,
                summary,
                body,
                actions@,
                hints@,
                expire_timeout,
                data,
            ),
    {
        let id = self.allocate_id(replaces_id);
        let data = parse_data(
            NotificationRequest { app_name, app_icon, summary, body, actions, hints, expire_timeout },
        );
        (id, Command::Open(id, data))
    }

    /// Handles `CloseNotification`: the `Close` command for `id`. Whether
    /// `id` is live is for the presentation side to decide.
    pub fn close_notification(&self, id: u32) -> (r: Command)
        ensures
            r == Command::Close(id),
    {
        Command::Close(id)
    }
}

} // verus!
