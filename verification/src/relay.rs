//! The announce relay: an activity aimed at a local community is not
//! delivered under its author's signature, but rewrapped as an Announce
//! from the community actor and fanned out with the community's key.
//! For any other target, delivery goes directly author-to-inbox.

use vstd::prelude::*;
use crate::activity::{announce_body, announce_wrap, Activity};
use crate::actors::Actor;
use crate::errors::FederationError;
use crate::queue::{dest_views, fanout, lemma_fanout_tasks, send_activity, ActivityQueue,
    MAX_CLOCK_SECS};
use crate::urls::{dest_valid, url_text, Destination, DestinationView, FederationSettings};

verus! {

/// Sends one activity on behalf of its creator toward a community's
/// audience. For a local community the activity is wrapped in an
/// Announce envelope under `announce_id` and enqueued with the
/// community's identity and key; otherwise it is enqueued directly with
/// the creator's. Persisting the activity is the surrounding
/// application's concern, not the engine's.
///
/// The federation gate short-circuits to success with no task built,
/// and a missing key on the signing side (community or creator) refuses
/// the whole send with `MissingKeyMaterial` before any task exists.
pub fn send_activity_to_community(
    queue: &mut ActivityQueue,
    settings: &FederationSettings,
    creator: &Actor,
    community: &Actor,
    to: &Vec<Destination>,
    activity: &Activity,
    announce_id: String,
    now: u64,
) -> (r: Result<Vec<Result<(), FederationError>>, FederationError>)
    requires
        old(queue).wf(),
        creator.wf(),
        community.wf(),
        community.kind is Community,
        forall|i: int| 0 <= i < to@.len() ==> (#[trigger] to@[i]).wf(),
        url_text(announce_id@),
        now <= MAX_CLOCK_SECS,
    ensures
        final(queue).wf(),
        !settings.enabled ==> r is Ok && r->Ok_0@.len() == 0 && final(queue)@ == old(queue)@,
        settings.enabled && community.local && community.spec_has_key() ==> r is Ok && final(queue)@ == old(queue)@ + fanout(
            announce_body(announce_id@, community.actor_id@, activity.body@),
            community.actor_id@,
            community.private_key->0@,
            dest_views(to@),
            *settings,
            now,
        ),
        settings.enabled && community.local && !community.spec_has_key() ==> r == Err::<
            Vec<Result<(), FederationError>>,
            FederationError,
        >(FederationError::MissingKeyMaterial) && final(queue)@ == old(queue)@,
        settings.enabled && !community.local && creator.spec_has_key() ==> r is Ok && final(queue)@ == old(queue)@ + fanout(
            activity.body@,
            creator.actor_id@,
            creator.private_key->0@,
            dest_views(to@),
            *settings,
            now,
        ),
        settings.enabled && !community.local && !creator.spec_has_key() ==> r == Err::<
            Vec<Result<(), FederationError>>,
            FederationError,
        >(FederationError::MissingKeyMaterial) && final(queue)@ == old(queue)@,
        settings.enabled && r is Ok ==> r->Ok_0@.len() == to@.len() && (forall|i: int|
            0 <= i < to@.len() ==> ((#[trigger] r->Ok_0@[i]) is Ok <==> dest_valid(
                to@[i]@,
                *settings,
            ))),
        settings.enabled && r is Ok ==> forall|i: int|
            0 <= i < to@.len() && !dest_valid(to@[i]@, *settings) ==> (#[trigger] r->Ok_0@[i])
                == Err::<(), FederationError>(FederationError::InvalidDestination),
{
    if community.local {
        let wrapped = announce_wrap(community, activity, announce_id);
        send_activity(queue, settings, &wrapped.body, community, to, now)
    } else {
        send_activity(queue, settings, &activity.body, creator, to, now)
    }
}

/// Every task of a local community's announce fan-out is signed as the
/// community: it carries the community's identity URL — which the
/// signer then writes into the Signature header's key id — and the
/// community's private key, never the original author's.
pub proof fn lemma_announce_uses_community_key(
    announce_id: Seq<char>,
    community_id: Seq<char>,
    community_key: Seq<char>,
    object: Seq<char>,
    to: Seq<DestinationView>,
    settings: FederationSettings,
    now: u64,
)
    ensures
        forall|i: int|
            0 <= i < fanout(
                announce_body(announce_id, community_id, object),
                community_id,
                community_key,
                to,
                settings,
                now,
            ).len() ==> {
                let t = #[trigger] fanout(
                    announce_body(announce_id, community_id, object),
                    community_id,
                    community_key,
                    to,
                    settings,
                    now,
                )[i];
                &&& t.actor_id == community_id
                &&& t.private_key == community_key
                &&& t.activity == announce_body(announce_id, community_id, object)
            },
{
    lemma_fanout_tasks(
        announce_body(announce_id, community_id, object),
        community_id,
        community_key,
        to,
        settings,
        now,
    );
}

} // verus!
