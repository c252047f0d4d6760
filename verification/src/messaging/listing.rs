//! What the UI lists: conversations with their latest message, the messages
//! and media of a conversation, search hits, all ordered by time; and the
//! UI events each inbound event is announced on.
use vstd::prelude::*;

use crate::messaging::types::{AttachmentInfoView, ChatMessage, Conversation, InboundEvent, MediaItem};
use crate::messaging::wire::{Content, ContentBody};
use crate::text::{contains_text, owned, text_contains, trim, trimmed};

verus! {

broadcast use vstd::seq_lib::group_to_multiset_ensures;

/// Something listed by time.
pub trait Timestamped {
    /// Its time (milliseconds since the epoch).
    spec fn stamp(&self) -> u64;

    /// Its time.
    fn time(&self) -> (r: u64)
        ensures
            r == self.stamp(),
    ;
}

impl Timestamped for Conversation {
    open spec fn stamp(&self) -> u64 {
        self.last_timestamp
    }

    fn time(&self) -> (r: u64) {
        self.last_timestamp
    }
}

impl Timestamped for ChatMessage {
    open spec fn stamp(&self) -> u64 {
        self.timestamp
    }

    fn time(&self) -> (r: u64) {
        self.timestamp
    }
}

impl Timestamped for MediaItem {
    open spec fn stamp(&self) -> u64 {
        self.timestamp
    }

    fn time(&self) -> (r: u64) {
        self.timestamp
    }
}

/// `a` comes before `b` in the listing order: newest first, or oldest first.
pub open spec fn in_order(a: u64, b: u64, newest_first: bool) -> bool {
    if newest_first {
        a >= b
    } else {
        a <= b
    }
}

/// A list ordered by time.
pub open spec fn ordered<T: Timestamped>(s: Seq<T>, newest_first: bool) -> bool {
    forall|i: int, j: int| 0 <= i < j < s.len() ==> in_order(#[trigger] s[i].stamp(), #[trigger] s[j].stamp(), newest_first)
}

/// Whether an item has time `t`.
pub open spec fn time_is<T: Timestamped>(t: u64) -> spec_fn(T) -> bool {
    |x: T| x.stamp() == t
}

/// The items of `s` with time `t`, in their order in `s`.
pub open spec fn at_time<T: Timestamped>(s: Seq<T>, t: u64) -> Seq<T> {
    s.filter(time_is::<T>(t))
}

/// A filter keeps nothing of a sequence none of whose items passes it.
proof fn lemma_filter_none<A>(s: Seq<A>, pred: spec_fn(A) -> bool)
    requires
        forall|i: int| 0 <= i < s.len() ==> !pred(#[trigger] s[i]),
    ensures
        s.filter(pred) == Seq::<A>::empty(),
{
    broadcast use vstd::seq_lib::group_filter_ensures;

    if s.filter(pred).len() > 0 {
        let e = s.filter(pred)[0];
        assert(pred(e));
        assert(s.filter(pred).contains(e));
        s.lemma_filter_contains_rev(pred, e);
    }
    assert(s.filter(pred) =~= Seq::<A>::empty());
}

/// Inserting `x` at `p`, where everything from `p` on comes strictly after
/// `x`, adds `x` at the end of the items with its time and leaves the
/// items of every other time as they were.
proof fn lemma_insert_at_time<T: Timestamped>(before: Seq<T>, p: int, x: T, newest_first: bool, t: u64)
    requires
        0 <= p <= before.len(),
        forall|q: int| p <= q < before.len() ==> !in_order(#[trigger] before[q].stamp(), x.stamp(), newest_first),
    ensures
        at_time(before.insert(p, x), t) == if x.stamp() == t {
            at_time(before, t).push(x)
        } else {
            at_time(before, t)
        },
{
    let pred = time_is::<T>(t);
    let head = before.take(p);
    let tail = before.skip(p);
    assert(before.insert(p, x) =~= head + seq![x] + tail);
    assert(before =~= head + tail);
    Seq::filter_distributes_over_add(head + seq![x], tail, pred);
    Seq::filter_distributes_over_add(head, seq![x], pred);
    Seq::filter_distributes_over_add(head, tail, pred);
    Seq::<T>::empty().lemma_filter_push(x, pred);
    assert(seq![x] =~= Seq::<T>::empty().push(x));
    reveal_with_fuel(Seq::filter, 1);
    assert(Seq::<T>::empty().filter(pred) =~= Seq::<T>::empty());
    if x.stamp() == t {
        assert forall|i: int| 0 <= i < tail.len() implies !pred(#[trigger] tail[i]) by {
            assert(tail[i] == before[p + i]);
        }
        lemma_filter_none(tail, pred);
        assert(head.filter(pred) + seq![x] =~= (head.filter(pred) + Seq::<T>::empty()).push(x));
        assert(head.filter(pred) + Seq::<T>::empty() =~= head.filter(pred));
    } else {
        assert(head.filter(pred) + Seq::<T>::empty() =~= head.filter(pred));
    }
}

/// Order `items` by time (newest first, or oldest first): the same items,
/// ordered; items with the same time keep their order.
pub fn sort_by_time<T: Timestamped>(items: Vec<T>, newest_first: bool) -> (r: Vec<T>)
    ensures
        r@.to_multiset() == items@.to_multiset(),
        ordered(r@, newest_first),
        forall|t: u64| #[trigger] at_time(r@, t) == at_time(items@, t),
{
    let ghost all = items@;
    let mut rest = items;
    let mut out: Vec<T> = Vec::new();
    let n = rest.len();
    let mut k: usize = 0;
    proof {
        assert(all.subrange(0, 0) =~= Seq::<T>::empty());
        assert(all.subrange(0, n as int) =~= all);
    }
    while k < n
        invariant
            n == all.len(),
            k <= n,
            rest@ =~= all.subrange(k as int, n as int),
            out@.to_multiset() == all.subrange(0, k as int).to_multiset(),
            ordered(out@, newest_first),
            forall|t: u64| #[trigger] at_time(out@, t) == at_time(all.subrange(0, k as int), t),
        decreases n - k,
    {
        let x = rest.remove(0);
        proof {
            assert(x == all[k as int]);
            assert(rest@ =~= all.subrange(k + 1, n as int));
            assert(all.subrange(0, k + 1) =~= all.subrange(0, k as int).push(x));
        }
        let t = x.time();
        let mut p: usize = 0;
        while p < out.len() && in_order_exec(out[p].time(), t, newest_first)
            invariant
                p <= out@.len(),
                forall|q: int| 0 <= q < p ==> in_order(#[trigger] out@[q].stamp(), t, newest_first),
            decreases out@.len() - p,
        {
            p = p + 1;
        }
        let ghost before = out@;
        out.insert(p, x);
        proof {
            assert(out@ == before.insert(p as int, x));
            assert(forall|q: int| p <= q < before.len() ==> !in_order(before[q].stamp(), t, newest_first)) by {
                assert forall|q: int| p <= q < before.len() implies !in_order(#[trigger] before[q].stamp(), t, newest_first) by {
                    if p < before.len() {
                        assert(!in_order(before[p as int].stamp(), t, newest_first));
                        assert(in_order(before[p as int].stamp(), before[q].stamp(), newest_first) || p == q);
                    }
                }
            }
            assert forall|s: u64| #[trigger] at_time(out@, s) == at_time(all.subrange(0, k + 1), s) by {
                lemma_insert_at_time(before, p as int, x, newest_first, s);
                all.subrange(0, k as int).lemma_filter_push(x, time_is::<T>(s));
            }
            assert forall|i: int, j: int| 0 <= i < j < out@.len() implies in_order(
                #[trigger] out@[i].stamp(),
                #[trigger] out@[j].stamp(),
                newest_first,
            ) by {
                if j < p {
                    assert(out@[i] == before[i] && out@[j] == before[j]);
                } else if j == p {
                    assert(out@[i] == before[i]);
                } else if i == p {
                    assert(out@[j] == before[j - 1]);
                    assert(!in_order(before[j - 1].stamp(), t, newest_first));
                } else if i < p {
                    assert(out@[i] == before[i] && out@[j] == before[j - 1]);
                } else {
                    assert(out@[i] == before[i - 1] && out@[j] == before[j - 1]);
                }
            }
        }
        k = k + 1;
    }
    proof {
        assert(all.subrange(0, n as int) =~= all);
    }
    out
}

fn in_order_exec(a: u64, b: u64, newest_first: bool) -> (r: bool)
    ensures
        r == in_order(a, b, newest_first),
{
    if newest_first {
        a >= b
    } else {
        a <= b
    }
}

/// The body and time of the latest text message among `contents`: the
/// data message with a body and the greatest timestamp (a missing timestamp
/// counts as 0; the earliest of equals wins), else none and 0.
pub open spec fn last_message_of(contents: Seq<Content>) -> (Option<Seq<char>>, u64)
    decreases contents.len(),
{
    if contents.len() == 0 {
        (None, 0)
    } else {
        let prev = last_message_of(contents.drop_last());
        match contents.last().body {
            ContentBody::DataMessage(dm) => match dm.body {
                Some(b) => {
                    let ts = match dm.timestamp {
                        Some(t) => t,
                        None => 0,
                    };
                    if prev.0 is None || ts > prev.1 {
                        (Some(b@), ts)
                    } else {
                        prev
                    }
                },
                None => prev,
            },
            _ => prev,
        }
    }
}

/// The latest text message of a conversation, for its sidebar entry.
pub fn get_last_message_info(contents: &Vec<Content>) -> (r: (Option<String>, u64))
    ensures
        (r.0.deep_view(), r.1) == last_message_of(contents@),
{
    let mut last: Option<String> = None;
    let mut last_ts: u64 = 0;
    let mut i: usize = 0;
    while i < contents.len()
        invariant
            i <= contents@.len(),
            (last.deep_view(), last_ts) == last_message_of(contents@.take(i as int)),
            last is None ==> last_ts == 0,
        decreases contents@.len() - i,
    {
        proof {
            assert(contents@.take(i + 1).drop_last() =~= contents@.take(i as int));
            assert(contents@.take(i + 1).last() == contents@[i as int]);
        }
        match &contents[i].body {
            ContentBody::DataMessage(dm) => match &dm.body {
                Some(b) => {
                    let ts = match dm.timestamp {
                        Some(t) => t,
                        None => 0,
                    };
                    if last.is_none() || ts > last_ts {
                        last = Some(owned(b.as_str()));
                        last_ts = ts;
                    }
                },
                None => {},
            },
            _ => {},
        }
        i = i + 1;
    }
    proof {
        assert(contents@.take(i as int) =~= contents@);
    }
    (last, last_ts)
}

/// Mathematical form of a [`MediaItem`]: time, sender id and name,
/// direction, attachment.
pub open spec fn media_view(m: MediaItem) -> (u64, Seq<char>, Seq<char>, bool, AttachmentInfoView) {
    (m.timestamp, m.sender_id@, m.sender_name@, m.is_outgoing, m.attachment.deep_view())
}

/// The media entries of one message: one per attachment, in order.
pub open spec fn media_of_message(m: ChatMessage) -> Seq<(u64, Seq<char>, Seq<char>, bool, AttachmentInfoView)> {
    Seq::new(
        m.attachments@.len(),
        |i: int| (m.timestamp, m.sender_id@, m.sender_name@, m.is_outgoing, m.attachments@[i].deep_view()),
    )
}

/// The media entries of a conversation's messages, message by message.
pub open spec fn media_of(ms: Seq<ChatMessage>) -> Seq<(u64, Seq<char>, Seq<char>, bool, AttachmentInfoView)>
    decreases ms.len(),
{
    if ms.len() == 0 {
        Seq::empty()
    } else {
        media_of(ms.drop_last()) + media_of_message(ms.last())
    }
}

/// Every attachment of `messages`, each with its message's time, sender and
/// direction, in message order.
pub fn media_items(messages: Vec<ChatMessage>) -> (r: Vec<MediaItem>)
    ensures
        r@.map_values(|m: MediaItem| media_view(m)) == media_of(messages@),
{
    let ghost all = messages@;
    let n = messages.len();
    let mut rest = messages;
    let mut out: Vec<MediaItem> = Vec::new();
    let mut k: usize = 0;
    proof {
        assert(all.take(0) =~= Seq::<ChatMessage>::empty());
        assert(out@.map_values(|m: MediaItem| media_view(m)) =~= media_of(all.take(0)));
    }
    while k < n
        invariant
            n == all.len(),
            k <= n,
            rest@ =~= all.subrange(k as int, n as int),
            out@.map_values(|m: MediaItem| media_view(m)) == media_of(all.take(k as int)),
        decreases n - k,
    {
        let m = rest.remove(0);
        proof {
            assert(m == all[k as int]);
            assert(rest@ =~= all.subrange(k + 1, n as int));
            assert(all.take(k + 1).drop_last() =~= all.take(k as int));
            assert(all.take(k + 1).last() == m);
        }
        let ghost mm = m;
        let ghost base = out@.map_values(|x: MediaItem| media_view(x));
        let ChatMessage { timestamp, sender_id, sender_name, attachments, is_outgoing, .. } = m;
        let na = attachments.len();
        let mut atts = attachments;
        let mut j: usize = 0;
        while j < na
            invariant
                na == mm.attachments@.len(),
                j <= na,
                atts@ =~= mm.attachments@.subrange(j as int, na as int),
                timestamp == mm.timestamp,
                sender_id@ == mm.sender_id@,
                sender_name@ == mm.sender_name@,
                is_outgoing == mm.is_outgoing,
                out@.map_values(|x: MediaItem| media_view(x)) =~= base + media_of_message(mm).take(j as int),
            decreases na - j,
        {
            let a = atts.remove(0);
            proof {
                assert(a == mm.attachments@[j as int]);
                assert(atts@ =~= mm.attachments@.subrange(j + 1, na as int));
            }
            let item = MediaItem {
                timestamp,
                sender_id: owned(sender_id.as_str()),
                sender_name: owned(sender_name.as_str()),
                is_outgoing,
                attachment: a,
            };
            let ghost prev = out@;
            out.push(item);
            proof {
                assert(out@ == prev.push(item));
                assert(out@.map_values(|x: MediaItem| media_view(x)) =~= prev.map_values(|x: MediaItem| media_view(x)).push(media_view(item)));
                assert(media_of_message(mm).take(j + 1) =~= media_of_message(mm).take(j as int).push(media_view(item)));
            }
            j = j + 1;
        }
        proof {
            assert(media_of_message(mm).take(na as int) =~= media_of_message(mm));
        }
        k = k + 1;
    }
    proof {
        assert(all.take(n as int) =~= all);
    }
    out
}

/// Every attachment exchanged in a conversation, newest first (attachments
/// of the same time in message order).
pub fn get_conversation_media(messages: Vec<ChatMessage>) -> (r: Vec<MediaItem>)
    ensures
        exists|items: Seq<MediaItem>|
            #![trigger items.to_multiset()]
            items.map_values(|m: MediaItem| media_view(m)) == media_of(messages@) && r@.to_multiset()
                == items.to_multiset() && (forall|t: u64| #[trigger] at_time(r@, t) == at_time(items, t)),
        ordered(r@, true),
{
    let items = media_items(messages);
    let ghost iv = items@;
    let r = sort_by_time(items, true);
    assert(iv.map_values(|m: MediaItem| media_view(m)) == media_of(messages@) && r@.to_multiset() == iv.to_multiset()
        && (forall|t: u64| #[trigger] at_time(r@, t) == at_time(iv, t)));
    r
}

/// A conversation's messages, oldest first (messages of the same time in
/// the order given).
pub fn get_messages(messages: Vec<ChatMessage>) -> (r: Vec<ChatMessage>)
    ensures
        r@.to_multiset() == messages@.to_multiset(),
        ordered(r@, false),
        forall|t: u64| #[trigger] at_time(r@, t) == at_time(messages@, t),
{
    sort_by_time(messages, false)
}

/// The sidebar's conversations, most recently active first (ties in the
/// order given).
pub fn get_conversations(conversations: Vec<Conversation>) -> (r: Vec<Conversation>)
    ensures
        r@.to_multiset() == conversations@.to_multiset(),
        ordered(r@, true),
        forall|t: u64| #[trigger] at_time(r@, t) == at_time(conversations@, t),
{
    sort_by_time(conversations, true)
}

/// A contact of the store, with what its sidebar row shows: its saved name
/// (possibly empty), its phone number, the messages of its conversation and
/// the cached avatar, if any.
#[derive(Debug, Clone)]
pub struct ContactEntry {
    pub uuid: u128,
    pub name: String,
    pub phone: Option<String>,
    pub contents: Vec<Content>,
    pub avatar_path: Option<String>,
}

/// A group of the store, with what its sidebar row shows.
#[derive(Debug, Clone)]
pub struct GroupEntry {
    pub master_key: Vec<u8>,
    pub title: String,
    pub contents: Vec<Content>,
    pub avatar_path: Option<String>,
}

/// The sidebar row of a contact: its UUID (hyphenated, lowercase) as id,
/// its title ("Note to Self" for our own account), its latest text message,
/// not a group.
pub open spec fn contact_row(c: ContactEntry, self_aci: Option<Seq<char>>, row: Conversation) -> bool {
    &&& row.id@ == crate::codec::uuid_text(c.uuid)
    &&& row.name@ == crate::messaging::naming::contact_title_of(
        crate::codec::uuid_text(c.uuid),
        self_aci,
        c.name@,
        c.phone.deep_view(),
    )
    &&& (row.last_message.deep_view(), row.last_timestamp) == last_message_of(c.contents@)
    &&& !row.is_group
    &&& row.avatar_path.deep_view() == c.avatar_path.deep_view()
}

/// The sidebar row of a group: its master key in lowercase hex as id, its
/// title, its latest text message, a group.
pub open spec fn group_row(g: GroupEntry, row: Conversation) -> bool {
    &&& row.id@ == crate::codec::hex_text(g.master_key@)
    &&& row.name@ == g.title@
    &&& (row.last_message.deep_view(), row.last_timestamp) == last_message_of(g.contents@)
    &&& row.is_group
    &&& row.avatar_path.deep_view() == g.avatar_path.deep_view()
}

fn copy_text(o: &Option<String>) -> (r: Option<String>)
    ensures
        r.deep_view() == o.deep_view(),
{
    match o {
        Some(s) => Some(owned(s.as_str())),
        None => None,
    }
}

/// The sidebar's rows, unsorted: one per contact, in order, then one per
/// group, in order.
pub fn conversation_rows(contacts: &Vec<ContactEntry>, groups: &Vec<GroupEntry>, self_aci: &Option<String>) -> (r: Vec<
    Conversation,
>)
    ensures
        r@.len() == contacts@.len() + groups@.len(),
        forall|i: int| 0 <= i < contacts@.len() ==> contact_row(contacts@[i], self_aci.deep_view(), #[trigger] r@[i]),
        forall|j: int|
            0 <= j < groups@.len() ==> group_row(groups@[j], #[trigger] r@[contacts@.len() + j]),
{
    let mut rows: Vec<Conversation> = Vec::new();
    let mut i: usize = 0;
    while i < contacts.len()
        invariant
            i <= contacts@.len(),
            rows@.len() == i,
            forall|k: int| 0 <= k < i ==> contact_row(contacts@[k], self_aci.deep_view(), #[trigger] rows@[k]),
        decreases contacts@.len() - i,
    {
        let c = &contacts[i];
        let id = crate::codec::uuid_to_string(c.uuid);
        let facts = crate::messaging::naming::SenderContact { name: owned(c.name.as_str()), phone: copy_text(&c.phone) };
        let name = crate::messaging::naming::contact_title(id.as_str(), self_aci, &facts);
        let (last_message, last_timestamp) = get_last_message_info(&c.contents);
        rows.push(
            Conversation {
                id,
                name,
                last_message,
                last_timestamp,
                is_group: false,
                avatar_path: copy_text(&c.avatar_path),
            },
        );
        i = i + 1;
    }
    let n = contacts.len();
    let mut j: usize = 0;
    while j < groups.len()
        invariant
            n == contacts@.len(),
            j <= groups@.len(),
            rows@.len() == n + j,
            forall|k: int| 0 <= k < n ==> contact_row(contacts@[k], self_aci.deep_view(), #[trigger] rows@[k]),
            forall|k: int| 0 <= k < j ==> group_row(groups@[k], #[trigger] rows@[n + k]),
        decreases groups@.len() - j,
    {
        let g = &groups[j];
        let (last_message, last_timestamp) = get_last_message_info(&g.contents);
        rows.push(
            Conversation {
                id: group_conversation_id(g.master_key.as_slice()),
                name: owned(g.title.as_str()),
                last_message,
                last_timestamp,
                is_group: true,
                avatar_path: copy_text(&g.avatar_path),
            },
        );
        proof {
            assert(rows@[n + j] == rows@[rows@.len() - 1]);
        }
        j = j + 1;
    }
    rows
}

/// What `str::to_lowercase` gives (Unicode lower-casing).
pub uninterp spec fn lowercase(s: Seq<char>) -> Seq<char>;

/// `str::to_lowercase`.
#[verifier::external_body]
fn to_lowercase(s: &str) -> (r: String)
    ensures
        r@ == lowercase(s@),
{
    s.to_lowercase()
}

/// The search text a query becomes: trimmed and lower-cased; none when
/// nothing is left.
pub fn search_query(query: &str) -> (r: Option<String>)
    ensures
        trimmed(query@).len() == 0 ==> r is None,
        lowercase(trimmed(query@)).len() == 0 ==> r is None,
        trimmed(query@).len() > 0 && lowercase(trimmed(query@)).len() > 0 ==> (r matches Some(q) && q@
            == lowercase(trimmed(query@))),
{
    let t = trim(query);
    if t.unicode_len() == 0 {
        return None;
    }
    let q = to_lowercase(t.as_str());
    if q.unicode_len() == 0 {
        None
    } else {
        Some(q)
    }
}

/// One search result.
#[derive(Debug, Clone)]
pub struct SearchHit {
    pub conversation_id: String,
    pub conversation_name: String,
    pub is_group: bool,
    pub timestamp: u64,
    pub sender_name: String,
    pub snippet: String,
}

impl Timestamped for SearchHit {
    open spec fn stamp(&self) -> u64 {
        self.timestamp
    }

    fn time(&self) -> (r: u64) {
        self.timestamp
    }
}

/// A conversation to search, with its messages (sender names resolved).
#[derive(Debug, Clone)]
pub struct SearchThread {
    pub conversation_id: String,
    pub conversation_name: String,
    pub is_group: bool,
    pub messages: Vec<ChatMessage>,
}

/// Mathematical form of a [`SearchHit`].
pub struct SearchHitView {
    pub conversation_id: Seq<char>,
    pub conversation_name: Seq<char>,
    pub is_group: bool,
    pub timestamp: u64,
    pub sender_name: Seq<char>,
    pub snippet: Seq<char>,
}

/// Mathematical form of a [`SearchHit`].
pub open spec fn hit_view(h: SearchHit) -> SearchHitView {
    SearchHitView {
        conversation_id: h.conversation_id@,
        conversation_name: h.conversation_name@,
        is_group: h.is_group,
        timestamp: h.timestamp,
        sender_name: h.sender_name@,
        snippet: h.snippet@,
    }
}

/// The hit a message of a conversation gives for search text `q`: one when
/// its lower-cased body contains `q`.
pub open spec fn hit_of(t: SearchThread, m: ChatMessage, q: Seq<char>) -> Option<SearchHitView> {
    match m.body {
        Some(b) => if contains_text(lowercase(b@), q) {
            Some(
                SearchHitView {
                    conversation_id: t.conversation_id@,
                    conversation_name: t.conversation_name@,
                    is_group: t.is_group,
                    timestamp: m.timestamp,
                    sender_name: m.sender_name@,
                    snippet: b@,
                },
            )
        } else {
            None
        },
        None => None,
    }
}

/// The hits of the messages `ms` of conversation `t`, in order.
pub open spec fn hits_in(t: SearchThread, ms: Seq<ChatMessage>, q: Seq<char>) -> Seq<SearchHitView>
    decreases ms.len(),
{
    if ms.len() == 0 {
        Seq::empty()
    } else {
        let prev = hits_in(t, ms.drop_last(), q);
        match hit_of(t, ms.last(), q) {
            Some(h) => prev.push(h),
            None => prev,
        }
    }
}

/// The hits of conversations `ts`, conversation by conversation.
pub open spec fn all_hits(ts: Seq<SearchThread>, q: Seq<char>) -> Seq<SearchHitView>
    decreases ts.len(),
{
    if ts.len() == 0 {
        Seq::empty()
    } else {
        all_hits(ts.drop_last(), q) + hits_in(ts.last(), ts.last().messages@, q)
    }
}

/// How many hits a search keeps at most: `limit`.
pub open spec fn hit_cap(limit: usize) -> int {
    limit as int
}

/// A message matches wherever the search text occurs in its lower-cased
/// body, at any position: it then gives a hit for its conversation, at its
/// time, by its sender, with its body as snippet. A message without a body,
/// or whose lower-cased body does not contain the text, gives none.
pub proof fn lemma_hit_wherever_it_occurs(t: SearchThread, m: ChatMessage, q: Seq<char>, i: int)
    ensures
        m.body matches Some(b) && crate::text::occurs_at(lowercase(b@), q, i) ==> hit_of(t, m, q) == Some(
            SearchHitView {
                conversation_id: t.conversation_id@,
                conversation_name: t.conversation_name@,
                is_group: t.is_group,
                timestamp: m.timestamp,
                sender_name: m.sender_name@,
                snippet: m.body->0@,
            },
        ),
        hit_of(t, m, q) is Some ==> (m.body matches Some(b) && exists|j: int|
            crate::text::occurs_at(lowercase(b@), q, j)),
{
    if m.body is Some && crate::text::occurs_at(lowercase(m.body->0@), q, i) {
        assert(contains_text(lowercase(m.body->0@), q));
    }
}

proof fn lemma_hits_in_prefix(t: SearchThread, ms: Seq<ChatMessage>, j: int, q: Seq<char>)
    requires
        0 <= j <= ms.len(),
    ensures
        hits_in(t, ms, q).len() >= hits_in(t, ms.take(j), q).len(),
        hits_in(t, ms, q).take(hits_in(t, ms.take(j), q).len() as int) == hits_in(t, ms.take(j), q),
    decreases ms.len() - j,
{
    if j < ms.len() {
        lemma_hits_in_prefix(t, ms, j + 1, q);
        assert(ms.take(j + 1).drop_last() =~= ms.take(j));
        let a = hits_in(t, ms.take(j), q);
        let b = hits_in(t, ms.take(j + 1), q);
        let c = hits_in(t, ms, q);
        assert(b.take(a.len() as int) =~= a);
        assert(c.take(a.len() as int) =~= b.take(a.len() as int));
    } else {
        assert(ms.take(j) =~= ms);
        assert(hits_in(t, ms, q).take(hits_in(t, ms, q).len() as int) =~= hits_in(t, ms, q));
    }
}

proof fn lemma_all_hits_prefix(ts: Seq<SearchThread>, i: int, q: Seq<char>)
    requires
        0 <= i <= ts.len(),
    ensures
        all_hits(ts, q).len() >= all_hits(ts.take(i), q).len(),
        all_hits(ts, q).take(all_hits(ts.take(i), q).len() as int) == all_hits(ts.take(i), q),
    decreases ts.len() - i,
{
    if i < ts.len() {
        lemma_all_hits_prefix(ts, i + 1, q);
        assert(ts.take(i + 1).drop_last() =~= ts.take(i));
        assert(ts.take(i + 1).last() == ts[i]);
        let a = all_hits(ts.take(i), q);
        let b = all_hits(ts.take(i + 1), q);
        let c = all_hits(ts, q);
        assert(b.take(a.len() as int) =~= a);
        assert(c.take(a.len() as int) =~= b.take(a.len() as int));
    } else {
        assert(ts.take(i) =~= ts);
        assert(all_hits(ts, q).take(all_hits(ts, q).len() as int) =~= all_hits(ts, q));
    }
}

fn hit_for(t: &SearchThread, m: &ChatMessage, q: &str) -> (r: Option<SearchHit>)
    ensures
        match hit_of(*t, *m, q@) {
            Some(h) => r matches Some(x) && hit_view(x) == h,
            None => r is None,
        },
{
    match &m.body {
        Some(b) => {
            let lower = to_lowercase(b.as_str());
            if text_contains(lower.as_str(), q) {
                Some(
                    SearchHit {
                        conversation_id: owned(t.conversation_id.as_str()),
                        conversation_name: owned(t.conversation_name.as_str()),
                        is_group: t.is_group,
                        timestamp: m.timestamp,
                        sender_name: owned(m.sender_name.as_str()),
                        snippet: owned(b.as_str()),
                    },
                )
            } else {
                None
            }
        },
        None => None,
    }
}

/// The hits for search text `q`, in conversation and message order, cut
/// off once `limit` of them are found.
pub fn collect_hits(threads: &Vec<SearchThread>, q: &str, limit: usize) -> (r: Vec<SearchHit>)
    ensures
        r@.map_values(|h: SearchHit| hit_view(h)) == all_hits(threads@, q@).take(
            if all_hits(threads@, q@).len() < hit_cap(limit) {
                all_hits(threads@, q@).len() as int
            } else {
                hit_cap(limit)
            },
        ),
{
    let ghost full = all_hits(threads@, q@);
    let mut hits: Vec<SearchHit> = Vec::new();
    if limit == 0 {
        assert(full.take(0) =~= Seq::<SearchHitView>::empty());
        assert(hits@.map_values(|h: SearchHit| hit_view(h)) =~= Seq::<SearchHitView>::empty());
        return hits;
    }
    let mut i: usize = 0;
    proof {
        assert(threads@.take(0) =~= Seq::<SearchThread>::empty());
        assert(hits@.map_values(|h: SearchHit| hit_view(h)) =~= all_hits(threads@.take(0), q@));
    }
    while i < threads.len()
        invariant
            i <= threads@.len(),
            full == all_hits(threads@, q@),
            hits@.map_values(|h: SearchHit| hit_view(h)) == all_hits(threads@.take(i as int), q@),
            hits@.len() < hit_cap(limit),
        decreases threads@.len() - i,
    {
        let t = &threads[i];
        let ghost base = hits@.map_values(|h: SearchHit| hit_view(h));
        let mut j: usize = 0;
        proof {
            assert(t.messages@.take(0) =~= Seq::<ChatMessage>::empty());
            assert(base + hits_in(*t, t.messages@.take(0), q@) =~= base);
        }
        while j < t.messages.len()
            invariant
                i < threads@.len(),
                *t == threads@[i as int],
                j <= t.messages@.len(),
                full == all_hits(threads@, q@),
                base == all_hits(threads@.take(i as int), q@),
                hits@.map_values(|h: SearchHit| hit_view(h)) == base + hits_in(*t, t.messages@.take(j as int), q@),
                hits@.len() < hit_cap(limit),
            decreases t.messages@.len() - j,
        {
            proof {
                assert(t.messages@.take(j + 1).drop_last() =~= t.messages@.take(j as int));
                assert(t.messages@.take(j + 1).last() == t.messages@[j as int]);
            }
            let ghost prev = hits@;
            match hit_for(t, &t.messages[j], q) {
                Some(h) => {
                    hits.push(h);
                    proof {
                        assert(hits@.map_values(|x: SearchHit| hit_view(x)) =~= prev.map_values(
                            |x: SearchHit| hit_view(x),
                        ).push(hit_view(h)));
                    }
                    if hits.len() >= limit {
                        proof {
                            let cur = hits@.map_values(|x: SearchHit| hit_view(x));
                            assert(cur.len() == hit_cap(limit));
                            lemma_hits_in_prefix(*t, t.messages@, j + 1, q@);
                            lemma_all_hits_prefix(threads@, i + 1, q@);
                            assert(threads@.take(i + 1).drop_last() =~= threads@.take(i as int));
                            assert(threads@.take(i + 1).last() == *t);
                            let hin = hits_in(*t, t.messages@.take(j + 1), q@);
                            let whole = hits_in(*t, t.messages@, q@);
                            let upto = all_hits(threads@.take(i + 1), q@);
                            assert(upto == base + whole);
                            assert(cur == base + hin);
                            assert(whole.take(hin.len() as int) == hin);
                            assert(upto.take(cur.len() as int) =~= cur);
                            assert(full.take(upto.len() as int) == upto);
                            assert(full.take(cur.len() as int) =~= cur);
                        }
                        return hits;
                    }
                },
                None => {},
            }
            j = j + 1;
        }
        proof {
            assert(t.messages@.take(j as int) =~= t.messages@);
            assert(threads@.take(i + 1).drop_last() =~= threads@.take(i as int));
            assert(threads@.take(i + 1).last() == *t);
        }
        i = i + 1;
    }
    proof {
        assert(threads@.take(i as int) =~= threads@);
        assert(full.take(full.len() as int) =~= full);
    }
    hits
}

/// Search the messages of every conversation for `query`: case-insensitive
/// substring match on message bodies, at most `limit` hits, newest first
/// (hits of the same time in the order found). A blank query finds nothing.
pub fn search_messages(threads: &Vec<SearchThread>, query: &str, limit: usize) -> (r: Vec<SearchHit>)
    ensures
        trimmed(query@).len() == 0 ==> r@.len() == 0,
        lowercase(trimmed(query@)).len() == 0 ==> r@.len() == 0,
        ordered(r@, true),
        trimmed(query@).len() > 0 && lowercase(trimmed(query@)).len() > 0 ==> exists|found: Seq<SearchHit>|
            #![trigger found.to_multiset()]
            found.map_values(|h: SearchHit| hit_view(h)) == all_hits(threads@, lowercase(trimmed(query@))).take(
                if all_hits(threads@, lowercase(trimmed(query@))).len() < hit_cap(limit) {
                    all_hits(threads@, lowercase(trimmed(query@))).len() as int
                } else {
                    hit_cap(limit)
                },
            ) && r@.to_multiset() == found.to_multiset() && (forall|t: u64|
                #[trigger] at_time(r@, t) == at_time(found, t)),
{
    match search_query(query) {
        None => Vec::new(),
        Some(q) => {
            let found = collect_hits(threads, q.as_str(), limit);
            let ghost fv = found@;
            let r = sort_by_time(found, true);
            assert(r@.to_multiset() == fv.to_multiset() && (forall|t: u64| #[trigger] at_time(r@, t) == at_time(fv, t)));
            r
        },
    }
}

/// The UI events an inbound event is announced on, in order: a new message
/// also refreshes the conversation list, as do edits and deletions (the
/// sidebar shows the latest message).
pub open spec fn event_channels_of(event: InboundEvent) -> Seq<Seq<char>> {
    match event {
        InboundEvent::Message { .. } => seq!["new-message"@, "conversations-updated"@],
        InboundEvent::Receipt(_) => seq!["read-receipt"@],
        InboundEvent::Typing(_) => seq!["typing-indicator"@],
        InboundEvent::Reaction(_) => seq!["reaction"@],
        InboundEvent::Edited(_) => seq!["message-edited"@, "conversations-updated"@],
        InboundEvent::Deleted(_) => seq!["message-deleted"@, "conversations-updated"@],
        InboundEvent::PollVote(_) => seq!["poll-vote"@],
    }
}

/// The UI events an inbound event is announced on.
pub fn event_channels(event: &InboundEvent) -> (r: Vec<&'static str>)
    ensures
        r@.map_values(|s: &str| s@) == event_channels_of(*event),
{
    let r = match event {
        InboundEvent::Message { .. } => vec!["new-message", "conversations-updated"],
        InboundEvent::Receipt(_) => vec!["read-receipt"],
        InboundEvent::Typing(_) => vec!["typing-indicator"],
        InboundEvent::Reaction(_) => vec!["reaction"],
        InboundEvent::Edited(_) => vec!["message-edited", "conversations-updated"],
        InboundEvent::Deleted(_) => vec!["message-deleted", "conversations-updated"],
        InboundEvent::PollVote(_) => vec!["poll-vote"],
    };
    assert(r@.map_values(|s: &str| s@) =~= event_channels_of(*event));
    r
}

/// The conversation id of a group: its master key in lowercase hex.
pub fn group_conversation_id(master_key: &[u8]) -> (r: String)
    ensures
        r@ == crate::codec::hex_text(master_key@),
{
    crate::codec::hex_encode(master_key)
}

} // verus!
