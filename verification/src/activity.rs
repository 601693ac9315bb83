//! Activities: the immutable documents the engine delivers, the Announce
//! envelope a local community relays them in, and minting of activity ids.

use vstd::prelude::*;
use crate::actors::Actor;
use crate::urls::{url_text, is_url_char, FederationSettings};

verus! {

/// One federated event, ready to leave the process: its id and type tag,
/// the identity URL of its author, and the serialized JSON document.
pub struct Activity {
    /// The activity's own id URL.
    pub id: String,
    /// Type tag of the event, such as `Create` or `Like`.
    pub kind: String,
    /// Identity URL of the authoring actor.
    pub actor_id: String,
    /// The serialized JSON document of the activity, produced once at
    /// creation and never mutated afterwards.
    pub body: String,
}

impl Activity {
    /// The id and author are URL text, so the document can be framed
    /// into an envelope without escaping.
    pub open spec fn wf(self) -> bool {
        &&& url_text(self.id@)
        &&& url_text(self.actor_id@)
    }
}

/// The serialized Announce document that relays `object` (itself a
/// serialized activity) under the identity `announce_actor`.
pub open spec fn announce_body(
    announce_id: Seq<char>,
    announce_actor: Seq<char>,
    object: Seq<char>,
) -> Seq<char> {
    "{\"type\":\"Announce\",\"id\":\""@ + announce_id + "\",\"actor\":\""@ + announce_actor
        + "\",\"object\":"@ + object + "}"@
}

/// Wraps an activity in an Announce envelope published by `community`:
/// the envelope's actor is the community itself, never the original
/// author, so remote followers can trust the community's signature.
pub fn announce_wrap(community: &Actor, inner: &Activity, announce_id: String) -> (r: Activity)
    requires
        community.wf(),
        url_text(announce_id@),
    ensures
        r.id@ == announce_id@,
        r.kind@ == "Announce"@,
        r.actor_id@ == community.actor_id@,
        r.body@ == announce_body(announce_id@, community.actor_id@, inner.body@),
        r.wf(),
{
    let mut body = String::from_str("{\"type\":\"Announce\",\"id\":\"");
    body.append(announce_id.as_str());
    body.append("\",\"actor\":\"");
    body.append(community.actor_id.as_str());
    body.append("\",\"object\":");
    body.append(inner.body.as_str());
    body.append("}");
    Activity {
        id: announce_id,
        kind: String::from_str("Announce"),
        actor_id: community.actor_id.clone(),
        body,
    }
}

/// Hyphenated textual form of a version 4 UUID: 36 characters, hyphens at
/// the four fixed positions, lowercase hex digits everywhere else.
pub open spec fn is_uuid_text(s: Seq<char>) -> bool {
    &&& s.len() == 36
    &&& forall|i: int|
        0 <= i < 36 ==> if i == 8 || i == 13 || i == 18 || i == 23 {
            #[trigger] s[i] == '-'
        } else {
            ('0' <= s[i] && s[i] <= '9') || ('a' <= s[i] && s[i] <= 'f')
        }
}

/// UUID text consists of URL characters only.
pub proof fn lemma_uuid_text_is_url_text(s: Seq<char>)
    requires
        is_uuid_text(s),
    ensures
        url_text(s),
{
    assert forall|i: int| 0 <= i < s.len() implies is_url_char(#[trigger] s[i]) by {
        assert(if i == 8 || i == 13 || i == 18 || i == 23 {
            s[i] == '-'
        } else {
            ('0' <= s[i] && s[i] <= '9') || ('a' <= s[i] && s[i] <= 'f')
        });
    }
}

/// Relies on `uuid::Uuid::new_v4` and the `Display` form of `uuid::Uuid`:
/// a freshly drawn random v4 UUID, rendered hyphenated and lowercase.
/// The value is random, so nothing relates two calls; every outcome is
/// 36 characters of lowercase hex and hyphens.
#[verifier::external_body]
fn new_uuid_string() -> (r: String)
    ensures
        is_uuid_text(r@),
{
    uuid::Uuid::new_v4().to_string()
}

/// Names the result of `str::to_lowercase`, which depends on the
/// characters of its argument alone.
pub uninterp spec fn lower_of(s: Seq<char>) -> Seq<char>;

/// Relies on `str::to_lowercase`: the lowercase form of the argument,
/// a function of its characters alone.
#[verifier::external_body]
fn lowercase(s: &str) -> (r: String)
    ensures
        r@ == lower_of(s@),
{
    s.to_lowercase()
}

/// The id URL minted for a fresh activity of type `kind` on this
/// instance: protocol, own hostname, the lowercased kind, and a UUID.
pub open spec fn activity_id_text(
    settings: FederationSettings,
    kind: Seq<char>,
    uuid: Seq<char>,
) -> Seq<char> {
    settings.spec_protocol() + "://"@ + settings.hostname@ + "/activities/"@ + lower_of(kind)
        + "/"@ + uuid
}

/// Mints a globally unique id URL for a new activity of type `kind`,
/// `<protocol>://<hostname>/activities/<kind-lowercased>/<uuid>`. The
/// UUID part is freshly random, so only its shape is promised.
pub fn generate_activity_id(settings: &FederationSettings, kind: &str) -> (r: String)
    requires
        settings.wf(),
    ensures
        exists|u: Seq<char>|
            is_uuid_text(u) && url_text(u) && r@ == activity_id_text(*settings, kind@, u),
{
    let mut id = settings.protocol_string();
    id.append("://");
    id.append(settings.hostname.as_str());
    id.append("/activities/");
    let lowered = lowercase(kind);
    id.append(lowered.as_str());
    id.append("/");
    let uuid = new_uuid_string();
    id.append(uuid.as_str());
    proof {
        lemma_uuid_text_is_url_text(uuid@);
        assert(is_uuid_text(uuid@) && url_text(uuid@) && id@ == activity_id_text(
            *settings,
            kind@,
            uuid@,
        ));
    }
    id
}

} // verus!
