//! Mail listings and mail bodies, joined into market mails by mail id.
//!
//! A listing tells where and when a mail came and of what kind; opening the
//! mail gives its body. Either may come first: once both have come, the
//! market mail under that id is built from the pair.

use vstd::prelude::*;
use std::collections::HashMap;
use crate::albion::items::ItemNameResolver;
use crate::albion::payloads::{GetMailInfos, ReadMail};
use crate::models::albion_mail::{figures_or_default, AlbionMail};
use crate::models::types::{is_mail_auction_type, MailInfoMetadata, MailInfoType};
use crate::models::world_map::{is_resolution, spec_resolve, WorldMap};
use crate::text::{chars_of, split_chars, split_seq, str_eq, string_from_chars, to_owned_string};

verus! {

broadcast use vstd::std_specs::hash::group_hash_axioms;

/// What a listing says of one mail: location id, kind, time received.
pub type MailInfoView = (Seq<char>, MailInfoType, i64);

/// The location id of a listing entry as the rest of the library reads it:
/// the black market's marker `@BLACK_MARKET` is Caerleon's index `3003`; an
/// id with an `@` is its second `@`-separated piece; anything else is kept.
pub open spec fn spec_normalize_location(s: Seq<char>) -> Seq<char> {
    if s == "@BLACK_MARKET"@ {
        "3003"@
    } else if split_seq(s, '@').len() >= 2 {
        split_seq(s, '@')[1]
    } else {
        s
    }
}

/// The first `n` rows of a listing that have all four columns, by mail id;
/// a later row for the same id wins.
pub open spec fn listed(l: GetMailInfos, n: nat) -> Map<i64, MailInfoView>
    decreases n,
{
    if n == 0 {
        Map::empty()
    } else {
        let i = n - 1;
        let prev = listed(l, i as nat);
        if i < l.mail_ids.len() && i < l.location_ids.len() && i < l.types.len() && i
            < l.received.len() {
            prev.insert(
                l.mail_ids@[i],
                (spec_normalize_location(l.location_ids@[i]@), l.types@[i], l.received@[i]),
            )
        } else {
            prev
        }
    }
}

/// Every complete row of a listing, by mail id.
pub open spec fn listing(l: GetMailInfos) -> Map<i64, MailInfoView> {
    listed(l, l.mail_ids.len() as nat)
}

/// `m` is the market mail built from listing entry `info` and body `body`
/// of mail `id`: the body's figures ([`figures_or_default`]), the location
/// the listed id resolves to, the item's name (empty when not known).
pub open spec fn is_built_mail(
    m: AlbionMail,
    id: i64,
    info: MailInfoView,
    body: Seq<char>,
    world: WorldMap,
    items: ItemNameResolver,
    player: Seq<char>,
) -> bool {
    let f = figures_or_default(info.1, body);
    &&& m.id == id
    &&& m.location_id@ == info.0
    &&& m.player_name@ == player
    &&& m.info_type == info.1
    &&& is_mail_auction_type(info.1, m.auction_type)
    &&& m.received == info.2
    &&& m.server_id == 0
    &&& m.partial_amount == f.0
    &&& m.total_amount == f.1
    &&& m.item_id@ == f.2
    &&& m.total_silver == f.3
    &&& m.unit_silver_hundredths == f.4
    &&& m.taxes_percent_hundredths == 0
    &&& m.total_taxes == 0
    &&& m.is_set
    &&& !m.deleted
    &&& m.item_name@ == (if items.view().contains_key(f.2) {
        items.view()[f.2]
    } else {
        Seq::<char>::empty()
    })
    &&& m.location matches Some(loc) && is_resolution(
        loc,
        spec_resolve(world.index_view(), world.name_view(), info.0),
    )
}

pub struct MailState {
    mail_infos_by_id: HashMap<i64, MailInfoMetadata>,
    read_mails_by_id: HashMap<i64, ReadMail>,
    albion_mails_by_id: HashMap<i64, AlbionMail>,
}

/// What caching a listing does: its complete rows are recorded (later rows
/// win), bodies are unchanged, and every listed mail whose body is known is
/// built from its row and body; other mails are unchanged.
pub open spec fn after_listing(
    before: MailState,
    l: GetMailInfos,
    world: WorldMap,
    items: ItemNameResolver,
    player: Seq<char>,
    after: MailState,
) -> bool {
    let rows = listing(l);
    &&& after.infos() == before.infos().union_prefer_right(rows)
    &&& after.reads() == before.reads()
    &&& forall|id: i64| #[trigger]
        after.mails().contains_key(id) <==> (before.mails().contains_key(id) || (rows.contains_key(
            id,
        ) && before.reads().contains_key(id)))
    &&& forall|id: i64|
        rows.contains_key(id) && before.reads().contains_key(id) ==> is_built_mail(
            #[trigger] after.mails()[id],
            id,
            rows[id],
            before.reads()[id],
            world,
            items,
            player,
        )
    &&& forall|id: i64|
        !(rows.contains_key(id) && before.reads().contains_key(id)) && before.mails().contains_key(
            id,
        ) ==> #[trigger] after.mails()[id] == before.mails()[id]
}

/// What caching a mail body does: the body is recorded; when the mail is
/// listed, the market mail is built from its row and this body, recorded
/// and returned; otherwise nothing is returned and the mails are unchanged.
pub open spec fn after_read(
    before: MailState,
    read: ReadMail,
    world: WorldMap,
    items: ItemNameResolver,
    player: Seq<char>,
    after: MailState,
    r: Option<AlbionMail>,
) -> bool {
    let id = read.mail_id;
    &&& after.infos() == before.infos()
    &&& after.reads() == before.reads().insert(id, read.mail_string@)
    &&& match r {
        Some(m) => {
            &&& before.infos().contains_key(id)
            &&& is_built_mail(m, id, before.infos()[id], read.mail_string@, world, items, player)
            &&& after.mails() == before.mails().insert(id, m)
        },
        None => {
            &&& !before.infos().contains_key(id)
            &&& after.mails() == before.mails()
        },
    }
}

/// Reads a listing's location id as [`spec_normalize_location`] says.
pub fn normalize_mail_location_id(location_id: &str) -> (r: String)
    ensures
        r@ == spec_normalize_location(location_id@),
{
    if str_eq(location_id, "@BLACK_MARKET") {
        proof {
            reveal_strlit("3003");
        }
        return to_owned_string("3003");
    }
    let cs = chars_of(location_id);
    let parts = split_chars(&cs, '@');
    if parts.len() >= 2 {
        string_from_chars(&parts[1])
    } else {
        to_owned_string(location_id)
    }
}

/// Builds the market mail of a listing entry and a body.
fn build_albion_mail(
    metadata: &MailInfoMetadata,
    body: &str,
    world_map: &WorldMap,
    item_names: &ItemNameResolver,
    player_name: &str,
) -> (r: AlbionMail)
    ensures
        is_built_mail(
            r,
            metadata.mail_id,
            (metadata.location_id@, metadata.info_type, metadata.received),
            body@,
            *world_map,
            *item_names,
            player_name@,
        ),
{
    let location = world_map.resolve_location(metadata.location_id.as_str());
    let mut mail = AlbionMail::from_correlated(
        metadata.mail_id,
        metadata.location_id.clone(),
        to_owned_string(player_name),
        metadata.info_type,
        metadata.received,
        body,
        Some(location),
    );
    mail.item_name = match item_names.resolve_owned(mail.item_id.as_str()) {
        Some(name) => name,
        None => String::new(),
    };
    mail
}

impl MailState {
    /// Each listing entry is kept under its own mail id.
    pub closed spec fn wf(&self) -> bool {
        forall|k: i64| #[trigger]
            self.mail_infos_by_id@.contains_key(k) ==> self.mail_infos_by_id@[k].mail_id == k
    }

    /// The listing entries known, by mail id.
    pub closed spec fn infos(&self) -> Map<i64, MailInfoView> {
        self.mail_infos_by_id@.map_values(
            |m: MailInfoMetadata| (m.location_id@, m.info_type, m.received),
        )
    }

    /// The mail bodies known, by mail id.
    pub closed spec fn reads(&self) -> Map<i64, Seq<char>> {
        self.read_mails_by_id@.map_values(|r: ReadMail| r.mail_string@)
    }

    /// The market mails built, by mail id.
    pub closed spec fn mails(&self) -> Map<i64, AlbionMail> {
        self.albion_mails_by_id@
    }

    /// Nothing known.
    pub fn new() -> (r: MailState)
        ensures
            r.wf(),
            r.infos() == Map::<i64, MailInfoView>::empty(),
            r.reads() == Map::<i64, Seq<char>>::empty(),
            r.mails() == Map::<i64, AlbionMail>::empty(),
    {
        let r = MailState {
            mail_infos_by_id: HashMap::new(),
            read_mails_by_id: HashMap::new(),
            albion_mails_by_id: HashMap::new(),
        };
        assert(r.infos() =~= Map::<i64, MailInfoView>::empty());
        assert(r.reads() =~= Map::<i64, Seq<char>>::empty());
        r
    }

    /// The market mails built so far.
    pub fn albion_mails(&self) -> (r: &HashMap<i64, AlbionMail>)
        ensures
            r@ == self.mails(),
    {
        &self.albion_mails_by_id
    }

    /// The market mail with the given id, once built.
    pub fn get_albion_mail(&self, mail_id: i64) -> (r: Option<&AlbionMail>)
        ensures
            match r {
                Some(m) => self.mails().contains_key(mail_id) && *m == self.mails()[mail_id],
                None => !self.mails().contains_key(mail_id),
            },
    {
        self.albion_mails_by_id.get(&mail_id)
    }

    /// Records a listing, building the mails whose bodies are already known,
    /// as [`after_listing`] says.
    pub fn cache_mail_infos(
        &mut self,
        response: &GetMailInfos,
        world_map: &WorldMap,
        item_names: &ItemNameResolver,
        player_name: &str,
    )
        requires
            old(self).wf(),
        ensures
            final(self).wf(),
            after_listing(*old(self), *response, *world_map, *item_names, player_name@, *final(self)),
    {
        let ghost infos0 = self.infos();
        let ghost reads0 = self.reads();
        let ghost mails0 = self.mails();
        let n = response.mail_ids.len();
        let mut index: usize = 0;
        proof {
            assert(infos0.union_prefer_right(listed(*response, 0)) =~= infos0);
        }
        while index < n
            invariant
                n == response.mail_ids.len(),
                index <= n,
                self.wf(),
                self.infos() == infos0.union_prefer_right(listed(*response, index as nat)),
                self.reads() == reads0,
                forall|id: i64| #[trigger]
                    self.mails().contains_key(id) <==> (mails0.contains_key(id) || (listed(
                        *response,
                        index as nat,
                    ).contains_key(id) && reads0.contains_key(id))),
                forall|id: i64|
                    listed(*response, index as nat).contains_key(id) && reads0.contains_key(id)
                        ==> is_built_mail(
                        #[trigger] self.mails()[id],
                        id,
                        listed(*response, index as nat)[id],
                        reads0[id],
                        *world_map,
                        *item_names,
                        player_name@,
                    ),
                forall|id: i64|
                    !(listed(*response, index as nat).contains_key(id) && reads0.contains_key(id))
                        && mails0.contains_key(id) ==> #[trigger] self.mails()[id] == mails0[id],
            decreases n - index,
        {
            let ghost before = listed(*response, index as nat);
            let ghost mails_before = self.mails();
            let ghost infos_before = self.mail_infos_by_id@;
            if index < response.location_ids.len() && index < response.types.len() && index
                < response.received.len() {
                let location_id = normalize_mail_location_id(
                    response.location_ids[index].as_str(),
                );
                let id = response.mail_ids[index];
                let metadata = MailInfoMetadata {
                    mail_id: id,
                    location_id,
                    info_type: response.types[index],
                    received: response.received[index],
                };
                let ghost row = (metadata.location_id@, metadata.info_type, metadata.received);
                let ghost after = before.insert(id, row);
                assert(listed(*response, (index + 1) as nat) == after);
                match self.read_mails_by_id.get(&id) {
                    Some(read_mail) => {
                        let mail = build_albion_mail(
                            &metadata,
                            read_mail.mail_string.as_str(),
                            world_map,
                            item_names,
                            player_name,
                        );
                        assert(reads0.contains_key(id) && reads0[id] == read_mail.mail_string@);
                        self.albion_mails_by_id.insert(id, mail);
                    },
                    None => {
                        assert(!reads0.contains_key(id));
                    },
                }
                self.mail_infos_by_id.insert(id, metadata);
                proof {
                    let prev_view = infos0.union_prefer_right(before);
                    assert(self.mail_infos_by_id@ == infos_before.insert(id, metadata));
                    assert(self.infos() =~= prev_view.insert(id, row));
                    assert(prev_view.insert(id, row) =~= infos0.union_prefer_right(after));
                }
            } else {
                assert(listed(*response, (index + 1) as nat) == before);
            }
            index = index + 1;
        }
    }

    /// Records a mail body and builds the market mail when the mail is
    /// listed, as [`after_read`] says.
    pub fn cache_read_mail(
        &mut self,
        response: ReadMail,
        world_map: &WorldMap,
        item_names: &ItemNameResolver,
        player_name: &str,
    ) -> (r: Option<AlbionMail>)
        requires
            old(self).wf(),
        ensures
            final(self).wf(),
            after_read(*old(self), response, *world_map, *item_names, player_name@, *final(self), r),
    {
        let ghost reads_before = self.read_mails_by_id@;
        let id = response.mail_id;
        let ghost body = response.mail_string@;
        let mail = match self.mail_infos_by_id.get(&id) {
            Some(metadata) => Some(
                build_albion_mail(
                    metadata,
                    response.mail_string.as_str(),
                    world_map,
                    item_names,
                    player_name,
                ),
            ),
            None => None,
        };
        self.read_mails_by_id.insert(id, response);
        proof {
            assert(self.reads() =~= old(self).reads().insert(id, body)) by {
                assert(self.read_mails_by_id@ == reads_before.insert(id, response));
            }
        }
        match mail {
            Some(m) => {
                self.albion_mails_by_id.insert(id, m.duplicate());
                Some(m)
            },
            None => None,
        }
    }
}

/// Whichever of a mail's listing and its body comes first, once both have
/// come the mail under that id is the one built from the listed row and
/// the body; when the body comes second, it is also what is returned.
pub proof fn law_mail_order_independent(
    s0: MailState,
    read: ReadMail,
    l: GetMailInfos,
    world: WorldMap,
    items: ItemNameResolver,
    player: Seq<char>,
    s1: MailState,
    r1: Option<AlbionMail>,
    s2: MailState,
    t1: MailState,
    t2: MailState,
    r2: Option<AlbionMail>,
)
    requires
        after_read(s0, read, world, items, player, s1, r1),
        after_listing(s1, l, world, items, player, s2),
        after_listing(s0, l, world, items, player, t1),
        after_read(t1, read, world, items, player, t2, r2),
        listing(l).contains_key(read.mail_id),
    ensures
        s2.mails().contains_key(read.mail_id),
        t2.mails().contains_key(read.mail_id),
        is_built_mail(
            s2.mails()[read.mail_id],
            read.mail_id,
            listing(l)[read.mail_id],
            read.mail_string@,
            world,
            items,
            player,
        ),
        is_built_mail(
            t2.mails()[read.mail_id],
            read.mail_id,
            listing(l)[read.mail_id],
            read.mail_string@,
            world,
            items,
            player,
        ),
        r2 == Some(t2.mails()[read.mail_id]),
{
    let id = read.mail_id;
    assert(s1.reads().contains_key(id));
    assert(s2.mails().contains_key(id));
    assert(t1.infos().contains_key(id));
    assert(t1.infos()[id] == listing(l)[id]);
}

} // verus!
