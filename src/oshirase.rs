use vstd::prelude::*;

use std::collections::BTreeMap;

use crate::bridge::Signal;
use crate::types::{reason_code, CloseReason, Event, Properties};

verus! {

broadcast use vstd::std_specs::btree::group_btree_axioms, vstd::laws_cmp::group_laws_cmp;

/// A live notification on the presentation side: the serial number of
/// the `open` that made it, the lifetime it was opened with (ms), and what
/// shows it (a window with its pending expiry timer, say), released when
/// the record leaves the table.
#[derive(Debug)]
pub struct Record<R> {
    pub serial: u64,
    pub expiry: Option<u32>,
    pub resource: R,
}

/// The resource of the record for `id`, if there is one.
pub open spec fn resource_of<R>(m: Map<u32, Record<R>>, id: u32) -> Option<R> {
    if m.contains_key(id) {
        Some(m[id].resource)
    } else {
        None
    }
}

/// Whether `id` has a record, made by the `open` with this serial.
pub open spec fn current<R>(m: Map<u32, Record<R>>, id: u32, serial: u64) -> bool {
    m.contains_key(id) && m[id].serial == serial
}

/// The signal that an event for `id` gives, where `live` tells whether
/// the event's record was there: an action is always reported; a close
/// only when it took that record away.
pub open spec fn event_signal(live: bool, id: u32, event: Event) -> Option<Signal> {
    match event {
        Event::Action(key) => Some(Signal::ActionInvoked(id, key)),
        Event::Close(reason) => if live {
            Some(Signal::NotificationClosed(id, reason_code(reason)))
        } else {
            None
        },
    }
}

/// Closing a live id gives exactly one `NotificationClosed` signal, for
/// that id with reason code 3 (`Closed`): a second close finds no record
/// and gives none. Closing an id without a record gives no signal.
pub proof fn lemma_close_signals_once<R>(t: Map<u32, Record<R>>, id: u32)
    ensures
        t.contains_key(id) ==> event_signal(
            t.contains_key(id),
            id,
            Event::Close(CloseReason::Closed),
        ) == Some(Signal::NotificationClosed(id, 3)),
        event_signal(
            t.remove(id).contains_key(id),
            id,
            Event::Close(CloseReason::Closed),
        ) is None,
        !t.contains_key(id) ==> event_signal(
            t.contains_key(id),
            id,
            Event::Close(CloseReason::Closed),
        ) is None,
{
}

/// The presentation side's table of live notifications, one record per
/// id, in the order of their ids. Each record owns the resource that
/// shows it.
#[derive(Debug)]
pub struct Oshirase<R> {
    records: BTreeMap<u32, Record<R>>,
    next_serial: u64,
}

impl<R> View for Oshirase<R> {
    type V = Map<u32, Record<R>>;

    closed spec fn view(&self) -> Map<u32, Record<R>> {
        self.records@
    }
}

impl<R> Oshirase<R> {
    /// Whether `id` has a record.
    pub open spec fn is_live(&self, id: u32) -> bool {
        self@.contains_key(id)
    }

    /// The serial number the next `open` gives its record.
    pub closed spec fn serial(&self) -> u64 {
        self.next_serial
    }

    /// How this server describes itself to clients.
    pub fn properties() -> (r: Properties)
        ensures
            r.name@ == "Oshirase"@,
            r.vendor@ == "Kyuuhachi"@,
            r.version@ == "0.1"@,
            r.capabilities@.len() == 4,
            r.capabilities@[0]@ == "actions"@,
            r.capabilities@[1]@ == "body"@,
            r.capabilities@[2]@ == "body-markup"@,
            r.capabilities@[3]@ == "icon-static"@,
    {
        let mut capabilities: Vec<String> = Vec::new();
        capabilities.push("actions".to_owned());
        capabilities.push("body".to_owned());
        capabilities.push("body-markup".to_owned());
        capabilities.push("icon-static".to_owned());
        Properties {
            name: "Oshirase".to_owned(),
            vendor: "Kyuuhachi".to_owned(),
            version: "0.1".to_owned(),
            capabilities,
        }
    }

    /// An empty table.
    pub fn new() -> (r: Oshirase<R>)
        ensures
            r@ == Map::<u32, Record<R>>::empty(),
            r.serial() == 0,
    {
        Oshirase { records: BTreeMap::new(), next_serial: 0 }
    }

    /// The records by id.
    pub fn records(&self) -> (r: &BTreeMap<u32, Record<R>>)
        ensures
            r@ == self@,
    {
        &self.records
    }

    /// The serial number the next `open` gives its record; events that
    /// the record's resource raises carry it.
    pub fn next_serial(&self) -> (r: u64)
        ensures
            r == self.serial(),
    {
        self.next_serial
    }

    /// Whether `id` has a record.
    pub fn contains(&self, id: u32) -> (r: bool)
        ensures
            r == self.is_live(id),
    {
        self.records.contains_key(&id)
    }

    /// Takes the record for `id` out of the table and hands back its
    /// resource, or `None` when `id` had no record.
    pub fn close(&mut self, id: u32) -> (r: Option<R>)
        ensures
            r == resource_of(old(self)@, id),
            final(self)@ == old(self)@.remove(id),
            final(self).serial() == old(self).serial(),
    {
        match self.records.remove(&id) {
            Some(rec) => Some(rec.resource),
            None => None,
        }
    }

    /// Puts `resource` in the table as the record for `id`, with lifetime
    /// `expiry` and the next serial number. A record `id` had before is
    /// replaced, and its resource handed back for release.
    pub fn open(&mut self, id: u32, expiry: Option<u32>, resource: R) -> (r: Option<R>)
        requires
            old(self).serial() < u64::MAX,
        ensures
            r == resource_of(old(self)@, id),
            final(self)@ == old(self)@.insert(
                id,
                Record { serial: old(self).serial(), expiry, resource },
            ),
            final(self).serial() == old(self).serial() + 1,
    {
        let serial = self.next_serial;
        self.next_serial = self.next_serial + 1;
        match self.records.insert(id, Record { serial, expiry, resource }) {
            Some(rec) => Some(rec.resource),
            None => None,
        }
    }

    /// Applies a `Close` command for `id` at once: the record, if there is
    /// one, leaves the table, and only then is `NotificationClosed` with
    /// reason `Closed` reported. The resource of the record is handed back
    /// for release.
    pub fn apply_close(&mut self, id: u32) -> (r: (Option<Signal>, Option<R>))
        ensures
            r.0 == event_signal(old(self).is_live(id), id, Event::Close(CloseReason::Closed)),
            r.1 == resource_of(old(self)@, id),
            final(self)@ == old(self)@.remove(id),
            final(self).serial() == old(self).serial(),
    {
        let removed = self.close(id);
        if removed.is_some() {
            (Some(Signal::NotificationClosed(id, CloseReason::Closed.code())), removed)
        } else {
            (None, removed)
        }
    }

    /// Applies an event raised by the resource of the record for `id` made
    /// by the `open` with number `serial`, and gives the signal to emit. An
    /// action is always reported. A close takes the record away, and is
    /// reported, only while that record is the current one for `id`: an
    /// event raised before `id` was closed or opened again changes nothing.
    /// The resource of a record taken away is handed back for release.
    pub fn handle_event(&mut self, id: u32, serial: u64, event: Event) -> (r: (
        Option<Signal>,
        Option<R>,
    ))
        ensures
            r.0 == event_signal(current(old(self)@, id, serial), id, event),
            final(self).serial() == old(self).serial(),
            match event {
                Event::Action(_) => final(self)@ == old(self)@ && r.1 is None,
                Event::Close(_) => if current(old(self)@, id, serial) {
                    final(self)@ == old(self)@.remove(id) && r.1 == resource_of(old(self)@, id)
                } else {
                    final(self)@ == old(self)@ && r.1 is None
                },
            },
    {
        match event {
            Event::Action(key) => (Some(Signal::ActionInvoked(id, key)), None),
            Event::Close(reason) => {
                let is_current = match self.records.get(&id) {
                    Some(rec) => rec.serial == serial,
                    None => false,
                };
                if is_current {
                    let removed = self.close(id);
                    (Some(Signal::NotificationClosed(id, reason.code())), removed)
                } else {
                    (None, None)
                }
            },
        }
    }
}

} // verus!
