//! Where notifications go.

use serde_json::Value;
use vstd::prelude::*;

use crate::json;
use crate::message;
use crate::text;

verus! {

/// The text without white space around it; none where nothing is left.
pub open spec fn nonblank(value: Option<Seq<char>>) -> Option<Seq<char>> {
    match value {
        Some(s) => if text::trimmed(s).len() > 0 {
            Some(text::trimmed(s))
        } else {
            None
        },
        None => None,
    }
}

/// The first of two optional texts that is there.
pub open spec fn first_of(a: Option<Seq<char>>, b: Option<Seq<char>>) -> Option<Seq<char>> {
    if a is Some {
        a
    } else {
        b
    }
}

/// The text without white space around it; none where nothing is left.
pub fn trimmed_option(value: Option<&str>) -> (r: Option<String>)
    ensures
        json::string_of(r) == nonblank(json::text_of(value)),
{
    match value {
        Some(s) => {
            let t = text::trim(s);
            if t.is_empty() {
                None
            } else {
                Some(t.to_owned())
            }
        },
        None => None,
    }
}

/// The user to notify: the one that was named, or else the owner.
pub fn resolve_owner_scope_notification_user(
    explicit_user: Option<&str>,
    owner_fallback: Option<&str>,
) -> (r: Option<String>)
    ensures
        json::string_of(r) == first_of(
            nonblank(json::text_of(explicit_user)),
            nonblank(json::text_of(owner_fallback)),
        ),
{
    match trimmed_option(explicit_user) {
        Some(user) => Some(user),
        None => trimmed_option(owner_fallback),
    }
}

/// The user that the metadata of a routine names, or else its owner.
pub fn resolve_routine_notification_user(metadata: &Value) -> (r: Option<String>)
    ensures
        json::string_of(r) == first_of(
            nonblank(json::json_content(*metadata).text_at("notify_user"@)),
            nonblank(json::json_content(*metadata).text_at("owner_id"@)),
        ),
{
    resolve_owner_scope_notification_user(
        json::text_member(metadata, "notify_user"),
        json::text_member(metadata, "owner_id"),
    )
}

/// The channel whose own notification target has to be looked up: only where no user was
/// named and a channel was.
pub open spec fn lookup(channel: Option<Seq<char>>, explicit_user: Option<Seq<char>>) -> Option<
    Seq<char>,
> {
    if nonblank(explicit_user) is Some {
        None
    } else {
        nonblank(channel)
    }
}

/// The channel whose own notification target has to be looked up before
/// [`resolve_channel_notification_user`] can decide.
pub fn channel_to_look_up(channel: Option<&str>, explicit_user: Option<&str>) -> (r: Option<String>)
    ensures
        json::string_of(r) == lookup(json::text_of(channel), json::text_of(explicit_user)),
{
    match trimmed_option(explicit_user) {
        Some(_) => None,
        None => trimmed_option(channel),
    }
}

/// The user to notify on a channel: the one that was named, or else the target that the
/// channel was found to have, or else the owner.
pub open spec fn channel_user(
    channel: Option<Seq<char>>,
    explicit_user: Option<Seq<char>>,
    owner: Option<Seq<char>>,
    found: Option<Seq<char>>,
) -> Option<Seq<char>> {
    if lookup(channel, explicit_user) is Some && found is Some {
        found
    } else {
        first_of(nonblank(explicit_user), nonblank(owner))
    }
}

/// The user to notify on a channel. `found` is what looking up [`channel_to_look_up`] gave.
pub fn resolve_channel_notification_user(
    found: Option<String>,
    channel: Option<&str>,
    explicit_user: Option<&str>,
    owner_fallback: Option<&str>,
) -> (r: Option<String>)
    ensures
        json::string_of(r) == channel_user(
            json::text_of(channel),
            json::text_of(explicit_user),
            json::text_of(owner_fallback),
            json::string_of(found),
        ),
{
    if let Some(user) = trimmed_option(explicit_user) {
        return Some(user);
    }
    if trimmed_option(channel).is_some() {
        if let Some(target) = found {
            return Some(target);
        }
    }
    resolve_owner_scope_notification_user(explicit_user, owner_fallback)
}

/// The user to notify by the metadata of a routine. `found` is what looking up the
/// channel of [`routine_channel_to_look_up`] gave.
pub fn resolve_routine_notification_target(found: Option<String>, metadata: &Value) -> (r: Option<
    String,
>)
    ensures
        json::string_of(r) == channel_user(
            json::json_content(*metadata).text_at("notify_channel"@),
            json::json_content(*metadata).text_at("notify_user"@),
            json::json_content(*metadata).text_at("owner_id"@),
            json::string_of(found),
        ),
{
    resolve_channel_notification_user(
        found,
        json::text_member(metadata, "notify_channel"),
        json::text_member(metadata, "notify_user"),
        json::text_member(metadata, "owner_id"),
    )
}

/// The channel of a routine's metadata whose own notification target has to be looked up.
pub fn routine_channel_to_look_up(metadata: &Value) -> (r: Option<String>)
    ensures
        json::string_of(r) == lookup(
            json::json_content(*metadata).text_at("notify_channel"@),
            json::json_content(*metadata).text_at("notify_user"@),
        ),
{
    channel_to_look_up(
        json::text_member(metadata, "notify_channel"),
        json::text_member(metadata, "notify_user"),
    )
}

/// Why a channel could not deliver.
pub enum ChannelError {
    /// Nobody is known on the channel to deliver to.
    MissingRoutingTarget { name: String, reason: String },
    SendFailed { name: String, reason: String },
}

/// Whether a notification that could not be delivered may go to all channels instead. One
/// without a known recipient may not.
pub fn should_fallback_routine_notification(error: &ChannelError) -> (r: bool)
    ensures
        r == !(*error is MissingRoutingTarget),
{
    match error {
        ChannelError::MissingRoutingTarget { .. } => false,
        _ => true,
    }
}

/// One delivery of a notification.
pub enum Forward {
    /// There is nothing (more) to deliver.
    Stop,
    /// Deliver to one user on one channel, then ask again with the outcome.
    Send { channel: String, user: String },
    /// Deliver to one user on every channel.
    SendToAll { user: String },
}

impl Forward {
    /// A delivery to this user on this channel.
    pub open spec fn sends(self, channel: Seq<char>, user: Seq<char>) -> bool {
        self matches Forward::Send { channel: c, user: u } && c@ == channel && u@ == user
    }

    /// A delivery to this user on every channel, or none where there is no user.
    pub open spec fn reaches_all(self, user: Option<Seq<char>>) -> bool {
        match user {
            Some(name) => self matches Forward::SendToAll { user: u } && u@ == name,
            None => self is Stop,
        }
    }
}

fn to_all(user: Option<String>) -> (r: Forward)
    ensures
        r.reaches_all(json::string_of(user)),
{
    match user {
        Some(user) => Forward::SendToAll { user },
        None => Forward::Stop,
    }
}

/// The user that a routine notification falls back to.
pub open spec fn routine_fallback(data: json::JsonContent) -> Option<Seq<char>> {
    first_of(nonblank(data.text_at("notify_user"@)), nonblank(data.text_at("owner_id"@)))
}

/// The first delivery of a routine notification.
pub open spec fn routine_goes(
    found: Option<Seq<char>>,
    data: json::JsonContent,
    r: Forward,
) -> bool {
    let user = channel_user(
        data.text_at("notify_channel"@),
        data.text_at("notify_user"@),
        data.text_at("owner_id"@),
        found,
    );
    match user {
        None => r is Stop,
        Some(user) => match data.text_at("notify_channel"@) {
            Some(channel) => r.sends(channel, user),
            None => r.reaches_all(routine_fallback(data)),
        },
    }
}

/// The first delivery of a routine notification: to its target on its channel, on all
/// channels where it names none, and nowhere without a target.
pub fn forward_routine(found: Option<String>, metadata: &Value) -> (r: Forward)
    ensures
        routine_goes(json::string_of(found), json::json_content(*metadata), r),
{
    match resolve_routine_notification_target(found, metadata) {
        None => Forward::Stop,
        Some(user) => match json::text_member(metadata, "notify_channel") {
            Some(channel) => Forward::Send { channel: channel.to_owned(), user },
            None => to_all(resolve_routine_notification_user(metadata)),
        },
    }
}

/// The delivery of a routine notification after the one on its own channel.
pub open spec fn routine_goes_on(
    outcome: Result<(), ChannelError>,
    data: json::JsonContent,
    r: Forward,
) -> bool {
    match outcome {
        Ok(_) => r is Stop,
        Err(e) => if e is MissingRoutingTarget {
            r is Stop
        } else {
            r.reaches_all(routine_fallback(data))
        },
    }
}

/// The delivery of a routine notification after the one on its own channel: on all
/// channels where that failed and the failure allows it, nowhere otherwise.
pub fn forward_routine_after(outcome: Result<(), ChannelError>, metadata: &Value) -> (r: Forward)
    ensures
        routine_goes_on(outcome, json::json_content(*metadata), r),
{
    match outcome {
        Ok(_) => Forward::Stop,
        Err(e) => if should_fallback_routine_notification(&e) {
            to_all(resolve_routine_notification_user(metadata))
        } else {
            Forward::Stop
        },
    }
}

/// Where heartbeat findings go, as it was resolved when the heartbeat was started.
pub struct HeartbeatRoute {
    pub channel: Option<String>,
    /// The user to notify on the channel.
    pub target: Option<String>,
    /// The user to notify on all channels.
    pub user: Option<String>,
    /// Each user's findings go to that user.
    pub multi_tenant: bool,
}

impl HeartbeatRoute {
    /// The owner of a finding, where findings go to their owners.
    pub open spec fn owner(self, data: json::JsonContent) -> Option<Seq<char>> {
        if self.multi_tenant {
            data.text_at("owner_id"@)
        } else {
            None
        }
    }

    /// Findings for this user go to all channels.
    pub open spec fn fallback(self, data: json::JsonContent) -> Option<Seq<char>> {
        first_of(self.owner(data), json::string_of(self.user))
    }

    fn finding_owner(&self, metadata: &Value) -> (r: Option<String>)
        ensures
            json::string_of(r) == self.owner(json::json_content(*metadata)),
    {
        if self.multi_tenant {
            match json::text_member(metadata, "owner_id") {
                Some(owner) => Some(owner.to_owned()),
                None => None,
            }
        } else {
            None
        }
    }

    fn fallback_user(&self, metadata: &Value) -> (r: Option<String>)
        ensures
            json::string_of(r) == self.fallback(json::json_content(*metadata)),
    {
        match self.finding_owner(metadata) {
            Some(owner) => Some(owner),
            None => self.user.clone(),
        }
    }

    /// The first delivery of a finding.
    pub open spec fn goes(self, data: json::JsonContent, r: Forward) -> bool {
        let target = first_of(self.owner(data), json::string_of(self.target));
        if self.channel is Some && target is Some {
            r.sends(self.channel->0@, target->0)
        } else {
            r.reaches_all(self.fallback(data))
        }
    }

    /// The first delivery of a finding: on the configured channel, to the finding's owner or
    /// else the configured target; on all channels where that names nobody.
    pub fn forward(&self, metadata: &Value) -> (r: Forward)
        ensures
            self.goes(json::json_content(*metadata), r),
    {
        let target: Option<String> = match self.finding_owner(metadata) {
            Some(owner) => Some(owner),
            None => self.target.clone(),
        };
        match (&self.channel, target) {
            (Some(channel), Some(user)) => Forward::Send { channel: channel.clone(), user },
            _ => to_all(self.fallback_user(metadata)),
        }
    }

    /// The delivery of a finding after the one on the configured channel.
    pub open spec fn goes_on(self, delivered: bool, data: json::JsonContent, r: Forward) -> bool {
        if delivered {
            r is Stop
        } else {
            r.reaches_all(self.fallback(data))
        }
    }

    /// The delivery of a finding after the one on the configured channel: on all channels
    /// where that failed.
    pub fn forward_after(&self, delivered: bool, metadata: &Value) -> (r: Forward)
        ensures
            self.goes_on(delivered, json::json_content(*metadata), r),
    {
        if delivered {
            Forward::Stop
        } else {
            to_all(self.fallback_user(metadata))
        }
    }
}

/// A user that was named wins over every other way to find one, whatever the channel.
pub proof fn named_user_wins(
    channel: Option<Seq<char>>,
    explicit_user: Option<Seq<char>>,
    owner: Option<Seq<char>>,
    found: Option<Seq<char>>,
)
    requires
        nonblank(explicit_user) is Some,
    ensures
        channel_user(channel, explicit_user, owner, found) == nonblank(explicit_user),
        lookup(channel, explicit_user) is None,
{
}

/// The routing data of a chat message brings a later notification back to where the
/// message's answer goes, where that is not blank.
pub proof fn routing_data_leads_back(
    message: message::IncomingMessage,
    found: Option<Seq<char>>,
)
    requires
        text::trimmed(message.target()).len() > 0,
    ensures
        ({
            let data = message::routing_data(message);
            &&& data.text_at("notify_channel"@) == Some(message.channel@)
            &&& channel_user(
                data.text_at("notify_channel"@),
                data.text_at("notify_user"@),
                data.text_at("owner_id"@),
                found,
            ) == Some(text::trimmed(message.target()))
            &&& routine_fallback(data) == Some(text::trimmed(message.target()))
        }),
{
    reveal_strlit("notify_channel");
    reveal_strlit("notify_user");
    reveal_strlit("notify_thread_id");
    reveal_strlit("notify_metadata");
    reveal_strlit("owner_id");
    let data = message::routing_data(message);
    assert("notify_user"@.len() == 11);
    assert("notify_channel"@.len() == 14);
    assert("notify_thread_id"@.len() == 16);
    assert("notify_metadata"@.len() == 15);
    assert(data.text_at("notify_user"@) == Some(message.target()));
    assert(data.text_at("notify_channel"@) == Some(message.channel@));
}

/// A text counts where there is something in it besides white space, and then without the
/// white space around it.
pub proof fn blank_texts_do_not_count(s: Seq<char>)
    ensures
        nonblank(None) is None,
        text::trimmed(s).len() == 0 ==> nonblank(Some(s)) is None,
        text::trimmed(s).len() > 0 ==> nonblank(Some(s)) == Some(text::trimmed(s)),
        s.len() > 0 && !text::white(s[0]) && !text::white(s.last()) ==> nonblank(Some(s)) == Some(
            s,
        ),
{
    if s.len() > 0 && !text::white(s[0]) && !text::white(s.last()) {
        text::trimmed_text_stays(s);
    }
}

/// The user to notify is the one that was named; failing that, the one that the channel was
/// found to have, where a channel was named; failing that, the owner. The channel is looked up
/// only where it can decide.
pub proof fn users_are_found_in_order(
    channel: Option<Seq<char>>,
    explicit_user: Option<Seq<char>>,
    owner: Option<Seq<char>>,
    found: Option<Seq<char>>,
)
    ensures
        ({
            let user = channel_user(channel, explicit_user, owner, found);
            let named = nonblank(explicit_user);
            let place = nonblank(channel);
            &&& named is Some ==> user == named
            &&& named is None && place is Some && found is Some ==> user == found
            &&& named is None && (place is None || found is None) ==> user == nonblank(owner)
            &&& lookup(channel, explicit_user) is Some <==> named is None && place is Some
            &&& lookup(channel, explicit_user) is Some ==> lookup(channel, explicit_user) == place
        }),
        first_of(explicit_user, owner) == match explicit_user {
            Some(_) => explicit_user,
            None => owner,
        },
{
}

/// A routine notification falls back to the user that its metadata names, or else to its
/// owner.
pub proof fn routines_fall_back_to_their_owner(data: json::JsonContent)
    ensures
        ({
            let user = nonblank(data.text_at("notify_user"@));
            let owner = nonblank(data.text_at("owner_id"@));
            &&& user is Some ==> routine_fallback(data) == user
            &&& user is None ==> routine_fallback(data) == owner
        }),
{
}

/// A finding goes to its owner where each user's findings go to that user, and otherwise to
/// the user that is configured.
pub proof fn findings_go_to_their_owner(route: HeartbeatRoute, data: json::JsonContent)
    ensures
        ({
            let owner = data.text_at("owner_id"@);
            &&& route.multi_tenant && owner is Some ==> route.fallback(data) == owner
                && route.owner(data) == owner
            &&& !route.multi_tenant || owner is None ==> route.owner(data) is None
                && route.fallback(data) is Some == route.user is Some
            &&& !route.multi_tenant || owner is None ==> (route.user matches Some(u)
                ==> route.fallback(data) == Some(u@))
        }),
{
}

/// A delivery is one thing only: to one user on one channel, to one user on every channel, or
/// none.
pub proof fn deliveries_are_one_thing(f: Forward, channel: Seq<char>, user: Seq<char>)
    ensures
        f.sends(channel, user) <==> {
            &&& f is Send
            &&& f->channel@ == channel
            &&& f->Send_user@ == user
        },
        f.reaches_all(Some(user)) <==> {
            &&& f is SendToAll
            &&& f->SendToAll_user@ == user
        },
        f.reaches_all(None) <==> f is Stop,
{
}

/// A routine notification that names a channel goes there, to the user that was found for it
/// and to nobody else; one that names no channel goes to that user everywhere; and one for
/// nobody goes nowhere. It is delivered again only where the delivery failed for another reason
/// than that nobody is known there.
pub proof fn routines_are_delivered_where_they_name(
    found: Option<Seq<char>>,
    data: json::JsonContent,
    first: Forward,
    outcome: Result<(), ChannelError>,
    then: Forward,
)
    requires
        routine_goes(found, data, first),
        routine_goes_on(outcome, data, then),
    ensures
        ({
            let channel = data.text_at("notify_channel"@);
            let named = nonblank(data.text_at("notify_user"@));
            let owner = nonblank(data.text_at("owner_id"@));
            &&& named is None && owner is None && (found is None || nonblank(channel) is None)
                ==> first is Stop
            &&& channel is Some && named is Some ==> {
                &&& first is Send
                &&& first->channel@ == channel->0
                &&& first->Send_user@ == named->0
            }
            &&& nonblank(channel) is Some && named is None && found is Some ==> {
                &&& first is Send
                &&& first->channel@ == channel->0
                &&& first->Send_user@ == found->0
            }
            &&& channel is None ==> !(first is Send)
            &&& channel is Some ==> !(first is SendToAll)
            &&& then is SendToAll ==> outcome is Err && !(outcome->Err_0 is MissingRoutingTarget)
            &&& outcome is Err && !(outcome->Err_0 is MissingRoutingTarget) && named is Some
                ==> then is SendToAll && then->SendToAll_user@ == named->0
            &&& !(then is Send)
        }),
{
}

/// A finding goes to one user on the configured channel where both are known, and otherwise to
/// one user everywhere; after a delivery that failed it goes everywhere, and after one that did
/// not it goes nowhere again.
pub proof fn findings_are_delivered(
    route: HeartbeatRoute,
    data: json::JsonContent,
    first: Forward,
    delivered: bool,
    then: Forward,
)
    requires
        route.goes(data, first),
        route.goes_on(delivered, data, then),
    ensures
        ({
            let owner = if route.multi_tenant {
                data.text_at("owner_id"@)
            } else {
                None
            };
            let known = owner is Some || route.target is Some;
            &&& first is Send <==> route.channel is Some && known
            &&& first is Send ==> {
                &&& first->channel@ == route.channel->0@
                &&& owner is Some ==> first->Send_user@ == owner->0
                &&& owner is None ==> first->Send_user@ == route.target->0@
            }
            &&& delivered ==> then is Stop
            &&& !delivered ==> (then is SendToAll <==> owner is Some || route.user is Some)
            &&& then is SendToAll ==> {
                &&& owner is Some ==> then->SendToAll_user@ == owner->0
                &&& owner is None ==> then->SendToAll_user@ == route.user->0@
            }
            &&& !(then is Send)
        }),
{
}

} // verus!
