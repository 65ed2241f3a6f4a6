//! The Matrix chat platform: what the bot keeps of a session, the addresses
//! it talks to, the notices it posts, and the commands it reads in rooms.

use vstd::prelude::*;
use crate::adapter::{adapter_named, Adapter};
use crate::error::CoreError;
use crate::link::{LinkIdentity, LinkView, UserInfo, CHALLENGE};
use crate::reconciler::{commands, Command, UpstreamUpdate};
use crate::text::{
    occurs_at, occurs_in, pieces, same_text, slice_texts,
    split_on, texts,
};
use crate::timestamp::Timestamp;
use crate::update::UpdateDesc;

verus! {

/// Where the client API of the home server lives.
pub const MATRIX_API_ENDPOINT: &'static str = "https://matrix.org/_matrix/client/r0";

/// The name of this chat platform in links and commands.
pub const UPSTREAM_TYPE: &'static str = "Matrix";

/// What the bot keeps of its session.
pub ghost struct MatrixView {
    pub access_token: Seq<char>,
    pub last_batch: Seq<char>,
}

/// The bot's session with the home server: the token of a login, empty
/// before the first one that succeeded, and the point up to which the
/// rooms were read, empty before the first reading.
#[derive(Debug)]
pub struct Matrix {
    access_token: String,
    last_batch: String,
}

/// What is sent to log in with a password.
#[derive(Debug)]
pub struct Login {
    pub login_type: String,
    pub user: String,
    pub password: String,
}

/// A message of the kind that programs post.
#[derive(Debug)]
pub struct Notice {
    pub body: String,
    pub format: Option<String>,
    pub formatted_body: Option<String>,
}

/// What an event in a room carries.
#[derive(Debug)]
pub enum EventContent {
    /// A text message.
    Text { body: String },
    /// Anything else.
    Other,
}

/// Something that happened in a room.
#[derive(Debug)]
pub struct Event {
    /// Who sent it.
    pub sender: String,
    pub content: EventContent,
}

/// What happened in one room since it was last read, oldest first.
#[derive(Debug)]
pub struct RoomEvents {
    pub room_id: String,
    pub events: Vec<Event>,
}

/// The address for logging in.
pub open spec fn login_address() -> Seq<char> {
    MATRIX_API_ENDPOINT@ + "/login"@
}

/// The address that reports what happened since `last_batch`, or all there
/// is where `last_batch` is empty.
pub open spec fn sync_address(access_token: Seq<char>, last_batch: Seq<char>) -> Seq<char> {
    let all = MATRIX_API_ENDPOINT@ + "/sync"@ + "?access_token="@ + access_token;
    if last_batch.len() > 0 {
        all + "&since="@ + last_batch
    } else {
        all
    }
}

/// The address for joining a room.
pub open spec fn join_address(room_id: Seq<char>, access_token: Seq<char>) -> Seq<char> {
    MATRIX_API_ENDPOINT@ + "/join/"@ + room_id + "?access_token="@ + access_token
}

/// The address for posting one message to a room; `transaction_id` tells
/// this posting from every other.
pub open spec fn message_address(
    chat_id: Seq<char>,
    transaction_id: Seq<char>,
    access_token: Seq<char>,
) -> Seq<char> {
    MATRIX_API_ENDPOINT@ + "/rooms/"@ + chat_id + "/send/m.room.message/"@ + transaction_id
        + "?access_token="@ + access_token
}

/// The address that tells the name a user shows.
pub open spec fn display_name_address(user_name: Seq<char>) -> Seq<char> {
    MATRIX_API_ENDPOINT@ + "/profile/"@ + user_name + "/displayname"@
}

/// What a refused request is reported as.
pub open spec fn refusal_text(who: Seq<char>, status: Seq<char>) -> Seq<char> {
    who + " returned invalid code: "@ + status
}

/// The name under which a user is addressed: the shown name where the home
/// server told it, else the user's identifier.
pub open spec fn addressed_as(display_name: Result<String, CoreError>, link: UserInfo) -> Seq<
    char,
> {
    match display_name {
        Ok(name) => name@,
        Err(_) => link.user_id@,
    }
}

/// What a user is told whose link exists already.
pub open spec fn duplicate_link_text(name: Seq<char>, link: UserInfo) -> Seq<char> {
    name + ": Link to "@ + link.linked_user_id@ + " is already present!"@
}

/// What a user is told whose link awaits the proof.
pub open spec fn link_to_verify_text(name: Seq<char>, link: UserInfo) -> Seq<char> {
    name + ": You should prove it's you! Write '"@ + CHALLENGE@ + "' without quotes in "@
        + link.adapter.name() + "!"@
}

/// What a user is told whose link was verified.
pub open spec fn added_link_text(name: Seq<char>, link: UserInfo) -> Seq<char> {
    name + ": Link to "@ + link.linked_user_id@ + " created!"@
}

/// The link that a `link` or `unlink` command names: the second word is
/// the source, the third the user there; words after them do not count.
pub open spec fn named_link(room_id: Seq<char>, sender: Seq<char>, words: Seq<Seq<char>>) -> Option<
    LinkView,
> {
    if words.len() < 3 {
        None
    } else {
        match adapter_named(words[1]) {
            Some(adapter) => Some(
                LinkView {
                    id: 0,
                    identity: LinkIdentity {
                        upstream_type: UPSTREAM_TYPE@,
                        chat_id: room_id,
                        user_id: sender,
                        adapter,
                        linked_user_id: words[2],
                    },
                    last_update: Timestamp::spec_epoch(),
                    verified: false,
                },
            ),
            None => None,
        }
    }
}

/// The command that the words of a message give, sent by `sender` in the
/// room `room_id`. The first word decides, letter for letter: `link` and
/// `unlink` name a link, `unlinkall` stands alone, anything else is no
/// command.
pub open spec fn parsed_command(
    room_id: Seq<char>,
    sender: Seq<char>,
    words: Seq<Seq<char>>,
) -> Option<Command> {
    if words.len() == 0 {
        None
    } else if words[0] == "link"@ {
        match named_link(room_id, sender, words) {
            Some(link) => Some(Command::Link(link)),
            None => None,
        }
    } else if words[0] == "unlink"@ {
        match named_link(room_id, sender, words) {
            Some(link) => Some(Command::Unlink(link)),
            None => None,
        }
    } else if words[0] == "unlinkall"@ {
        Some(Command::UnlinkAll { upstream_type: UPSTREAM_TYPE@, user_name: sender })
    } else {
        None
    }
}

/// The command in an event of a room: that of a text message, read from
/// its words, which single spaces part. Nothing stands before the first
/// word: a message that opens with a mark or a space gives no command.
pub open spec fn event_command(room_id: Seq<char>, event: Event) -> Option<Command> {
    match event.content {
        EventContent::Text { body } => parsed_command(room_id, event.sender@, pieces(body@, ' ')),
        EventContent::Other => None,
    }
}

/// The commands in the events of one room, in their order.
pub open spec fn room_commands(room_id: Seq<char>, events: Seq<Event>) -> Seq<Command>
    decreases events.len(),
{
    if events.len() == 0 {
        Seq::empty()
    } else {
        let before = room_commands(room_id, events.drop_last());
        match event_command(room_id, events.last()) {
            Some(command) => before.push(command),
            None => before,
        }
    }
}

/// The commands in the events of all rooms, room after room.
pub open spec fn all_commands(rooms: Seq<RoomEvents>) -> Seq<Command>
    decreases rooms.len(),
{
    if rooms.len() == 0 {
        Seq::empty()
    } else {
        all_commands(rooms.drop_last()) + room_commands(
            rooms.last().room_id@,
            rooms.last().events@,
        )
    }
}

impl View for Matrix {
    type V = MatrixView;

    closed spec fn view(&self) -> MatrixView {
        MatrixView { access_token: self.access_token@, last_batch: self.last_batch@ }
    }
}

impl Default for Matrix {
    /// A session before the first login.
    fn default() -> (matrix: Matrix)
        ensures
            matrix@ == (MatrixView { access_token: Seq::empty(), last_batch: Seq::empty() }),
    {
        Matrix { access_token: String::new(), last_batch: String::new() }
    }
}

impl Matrix {
    /// The token of the login.
    pub fn access_token(&self) -> (token: &String)
        ensures
            token@ == self@.access_token,
    {
        &self.access_token
    }

    /// The point up to which the rooms were read.
    pub fn last_batch(&self) -> (batch: &String)
        ensures
            batch@ == self@.last_batch,
    {
        &self.last_batch
    }

    /// Whether a login is due: none has succeeded yet.
    pub fn needs_connect(&self) -> (due: bool)
        ensures
            due == (self@.access_token.len() == 0),
    {
        self.access_token.as_str().unicode_len() == 0
    }

    /// Takes in how a login went. A session that holds a token keeps it; one
    /// that holds none takes the new token, and stays without after a login
    /// that failed.
    pub fn connected(&mut self, login: Result<String, CoreError>)
        ensures
            final(self)@.last_batch == old(self)@.last_batch,
            final(self)@.access_token == if old(self)@.access_token.len() == 0 {
                match login {
                    Ok(token) => token@,
                    Err(_) => Seq::empty(),
                }
            } else {
                old(self)@.access_token
            },
    {
        if self.needs_connect() {
            match login {
                Ok(token) => {
                    self.access_token = token;
                },
                Err(_) => {
                    assert(self@.access_token =~= Seq::<char>::empty());
                },
            }
        }
    }

    /// The address that reports what happened since the rooms were last read.
    pub fn sync_url(&self) -> (url: String)
        ensures
            url@ == sync_address(self@.access_token, self@.last_batch),
    {
        let mut url = MATRIX_API_ENDPOINT.to_owned();
        url.append("/sync");
        url.append("?access_token=");
        url.append(self.access_token.as_str());
        if self.last_batch.as_str().unicode_len() != 0 {
            url.append("&since=");
            url.append(self.last_batch.as_str());
        }
        url
    }

    /// Moves the point up to which the rooms were read.
    pub fn synced(&mut self, next_batch: String)
        ensures
            final(self)@ == (MatrixView {
                access_token: old(self)@.access_token,
                last_batch: next_batch@,
            }),
    {
        self.last_batch = next_batch;
    }
}

impl Login {
    /// What is sent to log in as `user` with `password`.
    pub fn with_password(user: String, password: String) -> (login: Login)
        ensures
            login.login_type@ == "m.login.password"@,
            login.user == user,
            login.password == password,
    {
        Login { login_type: "m.login.password".to_owned(), user, password }
    }
}

impl Notice {
    /// The notice that shows an update: its plain text, and its HTML for
    /// clients that render it.
    pub fn of_update<U: UpdateDesc>(update: &U) -> (notice: Notice)
        ensures
            notice.body@ == update.text(),
            notice.format matches Some(format) && format@ == "org.matrix.custom.html"@,
            notice.formatted_body matches Some(formatted) && formatted@ == update.html(),
    {
        Notice {
            body: update.as_string(),
            format: Some("org.matrix.custom.html".to_owned()),
            formatted_body: Some(update.as_html()),
        }
    }

    /// The notice that says `message` and nothing more.
    pub fn plain(message: String) -> (notice: Notice)
        ensures
            notice.body == message,
            notice.format is None,
            notice.formatted_body is None,
    {
        Notice { body: message, format: None, formatted_body: None }
    }
}

/// The address for logging in.
pub fn login_url() -> (url: String)
    ensures
        url@ == login_address(),
{
    let mut url = MATRIX_API_ENDPOINT.to_owned();
    url.append("/login");
    url
}

/// The address for joining a room.
pub fn join_url(room_id: &str, access_token: &str) -> (url: String)
    ensures
        url@ == join_address(room_id@, access_token@),
{
    let mut url = MATRIX_API_ENDPOINT.to_owned();
    url.append("/join/");
    url.append(room_id);
    url.append("?access_token=");
    url.append(access_token);
    url
}

/// The address for posting one message to a room under the given
/// transaction identifier.
pub fn message_url(chat_id: &str, transaction_id: &str, access_token: &str) -> (url: String)
    ensures
        url@ == message_address(chat_id@, transaction_id@, access_token@),
{
    let mut url = MATRIX_API_ENDPOINT.to_owned();
    url.append("/rooms/");
    url.append(chat_id);
    url.append("/send/m.room.message/");
    url.append(transaction_id);
    url.append("?access_token=");
    url.append(access_token);
    url
}

/// Calls uuid's `Uuid::new_v4` and writes the result in its hyphenated
/// form. The identifier is random: nothing is claimed of it.
#[verifier::external_body]
fn new_transaction_id() -> (id: String) {
    uuid::Uuid::new_v4().hyphenated().to_string()
}

/// The address for posting one message to a room, under a transaction
/// identifier made for this posting.
pub fn new_message_url(chat_id: &str, access_token: &str) -> (url: String)
    ensures
        exists|id: Seq<char>| url@ == #[trigger] message_address(chat_id@, id, access_token@),
{
    let id = new_transaction_id();
    message_url(chat_id, id.as_str(), access_token)
}

/// The address that tells the name a user shows.
pub fn display_name_url(user_name: &str) -> (url: String)
    ensures
        url@ == display_name_address(user_name@),
{
    let mut url = MATRIX_API_ENDPOINT.to_owned();
    url.append("/profile/");
    url.append(user_name);
    url.append("/displayname");
    url
}

/// The error for a request that `who` answered with the status `status`
/// in place of a success.
pub fn refusal(who: &str, status: &str) -> (error: CoreError)
    ensures
        error is CustomError,
        error.message() == refusal_text(who@, status@),
{
    let mut message = who.to_owned();
    message.append(" returned invalid code: ");
    message.append(status);
    CoreError::CustomError(message)
}

/// The name under which the user of a link is addressed.
pub fn shown_name(display_name: Result<String, CoreError>, link: &UserInfo) -> (name: String)
    ensures
        name@ == addressed_as(display_name, *link),
{
    match display_name {
        Ok(name) => name,
        Err(_) => link.user_id.clone(),
    }
}

/// What a user is told whose link exists already.
pub fn duplicate_link_message(display_name: &str, link: &UserInfo) -> (message: String)
    ensures
        message@ == duplicate_link_text(display_name@, *link),
{
    let mut message = display_name.to_owned();
    message.append(": Link to ");
    message.append(link.linked_user_id.as_str());
    message.append(" is already present!");
    message
}

/// What a user is told whose link awaits the proof: the phrase to post, and
/// the source to post it at.
pub fn link_to_verify_message(display_name: &str, link: &UserInfo) -> (message: String)
    ensures
        message@ == link_to_verify_text(display_name@, *link),
        occurs_in(CHALLENGE@, message@),
        occurs_in(link.adapter.name(), message@),
{
    let mut message = display_name.to_owned();
    message.append(": You should prove it's you! Write '");
    let ghost at_phrase = message@.len() as int;
    message.append(CHALLENGE);
    message.append("' without quotes in ");
    let ghost at_name = message@.len() as int;
    let adapter_name = link.adapter.to_string();
    message.append(adapter_name.as_str());
    message.append("!");
    proof {
        assert(message@.subrange(at_phrase, at_phrase + CHALLENGE@.len()) =~= CHALLENGE@);
        assert(occurs_at(CHALLENGE@, message@, at_phrase));
        assert(message@.subrange(at_name, at_name + link.adapter.name().len())
            =~= link.adapter.name());
        assert(occurs_at(link.adapter.name(), message@, at_name));
    }
    message
}

/// What a user is told whose link was verified.
pub fn added_link_message(display_name: &str, link: &UserInfo) -> (message: String)
    ensures
        message@ == added_link_text(display_name@, *link),
{
    let mut message = display_name.to_owned();
    message.append(": Link to ");
    message.append(link.linked_user_id.as_str());
    message.append(" created!");
    message
}

/// The link that a `link` or `unlink` command names.
fn info_from_event(room_id: &str, event: &Event, arguments: &Vec<&str>) -> (info: Option<UserInfo>)
    ensures
        match info {
            Some(link) => named_link(room_id@, event.sender@, slice_texts(arguments@)) == Some(
                link@,
            ),
            None => named_link(room_id@, event.sender@, slice_texts(arguments@)) is None,
        },
{
    if arguments.len() < 3 {
        return None;
    }
    match Adapter::from_str(arguments[1]) {
        Ok(adapter) => Some(
            UserInfo::new(
                UPSTREAM_TYPE.to_owned(),
                room_id.to_owned(),
                event.sender.clone(),
                adapter,
                arguments[2].to_owned(),
            ),
        ),
        Err(_) => None,
    }
}

/// Reads the command that the words of a message give, which `event`
/// brought to the room `room_id`. The words are matched letter for letter; a
/// first word that is no command, a missing word and a source that is not
/// known all give nothing.
pub fn parse_command(room_id: &str, event: &Event, arguments: Vec<&str>) -> (update: Option<
    UpstreamUpdate,
>)
    ensures
        match update {
            Some(u) => parsed_command(room_id@, event.sender@, slice_texts(arguments@)) == Some(
                u@,
            ),
            None => parsed_command(room_id@, event.sender@, slice_texts(arguments@)) is None,
        },
{
    if arguments.len() == 0 {
        return None;
    }
    let command = arguments[0];
    if same_text(command, "link") {
        match info_from_event(room_id, event, &arguments) {
            Some(info) => Some(UpstreamUpdate::Link(info)),
            None => None,
        }
    } else if same_text(command, "unlink") {
        match info_from_event(room_id, event, &arguments) {
            Some(info) => Some(UpstreamUpdate::Unlink(info)),
            None => None,
        }
    } else if same_text(command, "unlinkall") {
        Some(
            UpstreamUpdate::UnlinkAll {
                upstream_type: UPSTREAM_TYPE.to_owned(),
                user_name: event.sender.clone(),
            },
        )
    } else {
        None
    }
}

/// The command in one event of a room.
fn capture_command(room_id: &str, event: &Event) -> (update: Option<UpstreamUpdate>)
    ensures
        match update {
            Some(u) => event_command(room_id@, *event) == Some(u@),
            None => event_command(room_id@, *event) is None,
        },
{
    let body = match &event.content {
        EventContent::Text { body } => body,
        EventContent::Other => {
            return None;
        },
    };
    let words = split_on(body.as_str(), ' ');
    let mut arguments: Vec<&str> = Vec::new();
    let mut i: usize = 0;
    while i < words.len()
        invariant
            i <= words.len(),
            slice_texts(arguments@) == texts(words@.take(i as int)),
        decreases words.len() - i,
    {
        let ghost before = slice_texts(arguments@);
        arguments.push(words[i].as_str());
        proof {
            assert(slice_texts(arguments@) =~= before.push(words@[i as int]@));
            assert(texts(words@.take(i + 1)) =~= texts(words@.take(i as int)).push(
                words@[i as int]@,
            ));
        }
        i += 1;
    }
    assert(words@.take(words.len() as int) =~= words@);
    parse_command(room_id, event, arguments)
}

/// Collects the commands from what happened in the rooms, room after room
/// and each room's events in their order. Events that are no text message
/// and messages that give no command are passed over.
pub fn capture_commands(all_rooms: Vec<RoomEvents>) -> (captured: Result<
    Vec<UpstreamUpdate>,
    CoreError,
>)
    ensures
        captured matches Ok(updates) && commands(updates@) == all_commands(all_rooms@),
{
    let mut all_updates: Vec<UpstreamUpdate> = Vec::new();
    let mut r: usize = 0;
    assert(all_rooms@.take(0) =~= Seq::<RoomEvents>::empty());
    assert(commands(all_updates@) =~= Seq::<Command>::empty());
    while r < all_rooms.len()
        invariant
            r <= all_rooms.len(),
            commands(all_updates@) == all_commands(all_rooms@.take(r as int)),
        decreases all_rooms.len() - r,
    {
        let room = &all_rooms[r];
        let ghost done = commands(all_updates@);
        let mut e: usize = 0;
        assert(room.events@.take(0) =~= Seq::<Event>::empty());
        assert(done + Seq::<Command>::empty() =~= done);
        while e < room.events.len()
            invariant
                e <= room.events.len(),
                commands(all_updates@) == done + room_commands(
                    room.room_id@,
                    room.events@.take(e as int),
                ),
            decreases room.events.len() - e,
        {
            proof {
                assert(room.events@.take(e + 1).drop_last() =~= room.events@.take(e as int));
                assert(room.events@.take(e + 1).last() == room.events@[e as int]);
            }
            let ghost before = commands(all_updates@);
            match capture_command(room.room_id.as_str(), &room.events[e]) {
                Some(update) => {
                    all_updates.push(update);
                    proof {
                        assert(commands(all_updates@) =~= before.push(update@));
                        assert(before.push(update@) =~= done + room_commands(
                            room.room_id@,
                            room.events@.take(e as int),
                        ).push(update@));
                    }
                },
                None => {},
            }
            e += 1;
        }
        proof {
            assert(room.events@.take(room.events.len() as int) =~= room.events@);
            assert(all_rooms@.take(r + 1).drop_last() =~= all_rooms@.take(r as int));
            assert(all_rooms@.take(r + 1).last() == all_rooms@[r as int]);
        }
        r += 1;
    }
    assert(all_rooms@.take(all_rooms.len() as int) =~= all_rooms@);
    Ok(all_updates)
}

} // verus!
