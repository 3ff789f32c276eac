//! Files that the agent writes to the workspace: documents that users sent, and
//! conversations that are put aside.

use vstd::prelude::*;

use crate::chat;
use crate::chat::{ChatMessage, Role};
use crate::clock;
use crate::ids;
use crate::json;
use crate::message::{AttachmentKind, IncomingAttachment, IncomingMessage};
use crate::prompt;
use crate::session::Session;
use crate::submission;
use crate::text;

verus! {

broadcast use vstd::std_specs::hash::group_hash_axioms;

/// A file to be written to the workspace.
pub struct FileWrite {
    pub path: String,
    pub content: String,
}

/// A file by its texts.
#[verifier::ext_equal]
pub struct FileView {
    pub path: Seq<char>,
    pub content: Seq<char>,
}

impl View for FileWrite {
    type V = FileView;

    open spec fn view(&self) -> FileView {
        FileView { path: self.path@, content: self.content@ }
    }
}

/// The views of a list of files.
pub open spec fn file_views(files: Seq<FileWrite>) -> Seq<FileView> {
    files.map_values(|f: FileWrite| f@)
}

/// The character separates the parts of a path, or ends it.
pub open spec fn separates(c: char) -> bool {
    c == '/' || c == '\\' || c == '\0'
}

/// The text with an underscore for each character that separates the parts of a path.
pub open spec fn flattened(s: Seq<char>) -> Seq<char> {
    s.map_values(
        |c: char|
            if separates(c) {
                '_'
            } else {
                c
            },
    )
}

/// The text without its leading dots.
pub open spec fn undotted(s: Seq<char>) -> Seq<char>
    decreases s.len(),
{
    if s.len() > 0 && s[0] == '.' {
        undotted(s.skip(1))
    } else {
        s
    }
}

/// The name under which a document is filed.
pub open spec fn filed_as(raw: Option<Seq<char>>) -> Seq<char> {
    let name = undotted(
        flattened(
            match raw {
                Some(s) => s,
                None => "unnamed_document"@,
            },
        ),
    );
    if name.len() == 0 {
        "unnamed_document"@
    } else {
        name
    }
}

/// The name under which a document is filed.
pub fn document_name(raw: Option<&str>) -> (r: String)
    ensures
        r@ == filed_as(json::text_of(raw)),
{
    let name: &str = match raw {
        Some(s) => s,
        None => "unnamed_document",
    };
    let chars = text::chars_of(name);
    let mut flat: Vec<char> = Vec::new();
    let mut i: usize = 0;
    while i < chars.len()
        invariant
            i <= chars@.len(),
            flat@ =~= flattened(chars@).take(i as int),
        decreases chars@.len() - i,
    {
        let c = chars[i];
        if c == '/' || c == '\\' || c == '\0' {
            flat.push('_');
        } else {
            flat.push(c);
        }
        i = i + 1;
    }
    assert(flat@ =~= flattened(name@));
    let n: usize = flat.len();
    let mut start: usize = 0;
    assert(flat@.skip(0) =~= flat@);
    while start < n && flat[start] == '.'
        invariant
            n == flat@.len(),
            start <= n,
            undotted(flat@) == undotted(flat@.skip(start as int)),
        decreases n - start,
    {
        assert(flat@.skip(start as int).skip(1) =~= flat@.skip(start as int + 1));
        start = start + 1;
    }
    let ghost rest = flat@.skip(start as int);
    assert(undotted(flat@) == rest);
    if start == n {
        return "unnamed_document".to_owned();
    }
    let mut out = String::new();
    let mut j: usize = start;
    assert(out@ =~= rest.take(0));
    while j < n
        invariant
            n == flat@.len(),
            start <= j <= n,
            rest == flat@.skip(start as int),
            out@ == rest.take(j - start),
        decreases n - j,
    {
        out.push(flat[j]);
        assert(out@ =~= rest.take(j + 1 - start));
        j = j + 1;
    }
    assert(rest.take(rest.len() as int) =~= rest);
    out
}

proof fn undotted_keeps(s: Seq<char>)
    ensures
        undotted(s).len() <= s.len(),
        forall|i: int|
            0 <= i < undotted(s).len() ==> #[trigger] undotted(s)[i] == s[i + s.len() - undotted(
                s,
            ).len()],
        undotted(s).len() > 0 ==> undotted(s)[0] != '.',
    decreases s.len(),
{
    if s.len() > 0 && s[0] == '.' {
        undotted_keeps(s.skip(1));
    }
}

/// A document is filed under a single name, whatever the sender called it: the name is not
/// empty, has no separator in it, and does not begin with a dot. So a document lands in the
/// directory that is meant for it, and nowhere else.
pub proof fn document_names_stay_in_place(raw: Option<Seq<char>>)
    ensures
        filed_as(raw).len() > 0,
        forall|i: int| 0 <= i < filed_as(raw).len() ==> !separates(#[trigger] filed_as(raw)[i]),
        filed_as(raw)[0] != '.',
{
    let s = match raw {
        Some(s) => s,
        None => "unnamed_document"@,
    };
    undotted_keeps(flattened(s));
    reveal_strlit("unnamed_document");
}

/// The document that an attachment holds: its extracted text, unless that is the report of
/// a failure, which begins with a bracket.
pub open spec fn extracted(a: IncomingAttachment) -> Option<Seq<char>> {
    if a.kind != AttachmentKind::Document {
        None
    } else {
        match a.extracted_text {
            Some(t) => if t@.len() > 0 && t@[0] == '[' {
                None
            } else {
                Some(t@)
            },
            None => None,
        }
    }
}

/// The lines above a document.
pub open spec fn document_header(
    name: Seq<char>,
    user: Seq<char>,
    channel: Seq<char>,
    date: Seq<char>,
    mime: Seq<char>,
    size: nat,
) -> Seq<char> {
    "# "@ + name + "\n\n> Uploaded by **"@ + user + "** via **"@ + channel + "** on "@ + date
        + "\n> MIME: "@ + mime + " | Size: "@ + text::decimal(size) + " bytes\n\n---\n\n"@
}

/// The file for an attachment.
pub open spec fn document_file(
    user: Seq<char>,
    channel: Seq<char>,
    a: IncomingAttachment,
    date: Seq<char>,
) -> Option<FileView> {
    match extracted(a) {
        None => None,
        Some(t) => {
            let name = filed_as(json::string_of(a.filename));
            Some(
                FileView {
                    path: "documents/"@ + date + "/"@ + name,
                    content: document_header(
                        name,
                        user,
                        channel,
                        date,
                        a.mime_type@,
                        match a.size_bytes {
                            Some(n) => n as nat,
                            None => 0,
                        },
                    ) + t,
                },
            )
        },
    }
}

/// The files for a list of attachments.
pub open spec fn document_files(
    user: Seq<char>,
    channel: Seq<char>,
    attachments: Seq<IncomingAttachment>,
    date: Seq<char>,
) -> Seq<FileView>
    decreases attachments.len(),
{
    if attachments.len() == 0 {
        seq![]
    } else {
        let front = document_files(user, channel, attachments.drop_last(), date);
        match document_file(user, channel, attachments.last(), date) {
            Some(f) => front.push(f),
            None => front,
        }
    }
}

fn begins_with_bracket(s: &str) -> (r: bool)
    ensures
        r == (s@.len() > 0 && s@[0] == '['),
{
    s.unicode_len() > 0 && s.get_char(0) == '['
}

/// The file for an attachment, on a date.
pub fn document_to_store(
    message: &IncomingMessage,
    attachment: &IncomingAttachment,
    date: &str,
) -> (r: Option<FileWrite>)
    ensures
        match r {
            Some(f) => document_file(message.user_id@, message.channel@, *attachment, date@)
                == Some(f@),
            None => document_file(message.user_id@, message.channel@, *attachment, date@) is None,
        },
{
    if attachment.kind != AttachmentKind::Document {
        return None;
    }
    let body: &String = match &attachment.extracted_text {
        Some(t) => if begins_with_bracket(t.as_str()) {
            return None;
        } else {
            t
        },
        None => {
            return None;
        },
    };
    let name = match &attachment.filename {
        Some(n) => document_name(Some(n.as_str())),
        None => document_name(None),
    };
    let size: u128 = match attachment.size_bytes {
        Some(n) => n as u128,
        None => 0,
    };
    let title = text::cat3("# ", name.as_str(), "\n\n> Uploaded by **");
    let by = text::cat3(message.user_id.as_str(), "** via **", message.channel.as_str());
    let on = text::cat3("** on ", date, "\n> MIME: ");
    let kind = text::cat3(
        attachment.mime_type.as_str(),
        " | Size: ",
        text::number_text(size).as_str(),
    );
    let header = text::cat3(
        text::cat3(title.as_str(), by.as_str(), on.as_str()).as_str(),
        kind.as_str(),
        " bytes\n\n---\n\n",
    );
    let path = text::cat(text::cat3("documents/", date, "/").as_str(), name.as_str());
    let content = text::cat(header.as_str(), body.as_str());
    let file = FileWrite { path, content };
    assert(file@ =~= document_file(message.user_id@, message.channel@, *attachment, date@)->0);
    Some(file)
}

/// The files for all documents of a message, on a date.
pub fn documents_on(message: &IncomingMessage, date: &str) -> (r: Vec<FileWrite>)
    ensures
        file_views(r@) == document_files(
            message.user_id@,
            message.channel@,
            message.attachments@,
            date@,
        ),
{
    let mut out: Vec<FileWrite> = Vec::new();
    let mut i: usize = 0;
    let ghost all = message.attachments@;
    assert(file_views(out@) =~= document_files(
        message.user_id@,
        message.channel@,
        all.take(0),
        date@,
    ));
    while i < message.attachments.len()
        invariant
            all == message.attachments@,
            i <= all.len(),
            file_views(out@) == document_files(
                message.user_id@,
                message.channel@,
                all.take(i as int),
                date@,
            ),
        decreases all.len() - i,
    {
        let ghost done = file_views(out@);
        assert(all.take(i as int + 1).drop_last() =~= all.take(i as int));
        if let Some(f) = document_to_store(message, &message.attachments[i], date) {
            out.push(f);
            assert(file_views(out@) =~= done.push(f@));
        }
        i = i + 1;
    }
    assert(all.take(all.len() as int) =~= all);
    out
}

/// The files for all documents of a message, at a moment.
pub fn documents_to_store(message: &IncomingMessage, now: i64) -> (r: Vec<FileWrite>)
    requires
        clock::in_calendar(now),
    ensures
        clock::formatted_time(now, "%Y-%m-%d"@) matches Some(date) && file_views(r@)
            == document_files(message.user_id@, message.channel@, message.attachments@, date),
{
    match clock::format_time(now, "%Y-%m-%d") {
        Some(date) => documents_on(message, date.as_str()),
        None => Vec::new(),
    }
}

/// The name of a role.
pub open spec fn role_name(role: Role) -> Seq<char> {
    match role {
        Role::User => "user"@,
        Role::Assistant => "assistant"@,
        Role::System => "system"@,
        Role::Tool => "tool"@,
    }
}

/// The name of a role.
pub fn role_label(role: Role) -> (r: &'static str)
    ensures
        r@ == role_name(role),
{
    match role {
        Role::User => "user",
        Role::Assistant => "assistant",
        Role::System => "system",
        Role::Tool => "tool",
    }
}

/// The line for a message.
pub open spec fn message_line(m: chat::MessageView) -> Seq<char> {
    "**"@ + role_name(m.role) + "**: "@ + text::trimmed(m.content)
}

/// The lines for messages, each followed by an empty one.
pub open spec fn message_lines(messages: Seq<chat::MessageView>) -> Seq<Seq<char>>
    decreases messages.len(),
{
    if messages.len() == 0 {
        seq![]
    } else {
        message_lines(messages.drop_last()).push(message_line(messages.last())).push(seq![])
    }
}

/// How many messages of a conversation that is put aside are kept.
pub const SESSION_SAVE_MESSAGE_COUNT: usize = 15;

/// The lines of a conversation that is put aside.
pub open spec fn session_lines(
    history: Seq<chat::MessageView>,
    thread_id: u128,
    stamp: Seq<char>,
) -> Seq<Seq<char>> {
    seq![
        "# Session: "@ + stamp + " UTC"@,
        seq![],
        "- **Thread ID**: "@ + ids::id_text(thread_id),
        "- **Source**: /new"@,
        seq![],
        "## Conversation"@,
        seq![],
    ] + message_lines(prompt::last_messages(history, SESSION_SAVE_MESSAGE_COUNT as nat))
}

/// The file for a conversation that is put aside.
pub open spec fn session_file(
    history: Seq<chat::MessageView>,
    thread_id: u128,
    date: Seq<char>,
    time: Seq<char>,
    stamp: Seq<char>,
) -> FileView {
    FileView {
        path: "daily/"@ + date + "-session-"@ + time + ".md"@,
        content: text::joined(session_lines(history, thread_id, stamp), "\n"@),
    }
}

fn push_message_lines(lines: &mut Vec<String>, messages: &Vec<ChatMessage>)
    ensures
        text::texts(final(lines)@) == text::texts(old(lines)@) + message_lines(
            chat::views(messages@),
        ),
{
    let ghost head = text::texts(lines@);
    let ghost all = chat::views(messages@);
    let mut i: usize = 0;
    assert(text::texts(lines@) =~= head + message_lines(all.take(0)));
    while i < messages.len()
        invariant
            all == chat::views(messages@),
            i <= messages@.len(),
            text::texts(lines@) == head + message_lines(all.take(i as int)),
        decreases messages@.len() - i,
    {
        let ghost done = text::texts(lines@);
        assert(all[i as int] == messages@[i as int]@);
        assert(all.take(i as int + 1).drop_last() =~= all.take(i as int));
        let line = text::cat(
            text::cat3("**", role_label(messages[i].role), "**: ").as_str(),
            text::trim(messages[i].content.as_str()),
        );
        let blank = String::new();
        assert(blank@ =~= seq![]);
        lines.push(line);
        lines.push(blank);
        assert(text::texts(lines@) =~= done.push(line@).push(seq![]));
        assert(text::texts(lines@) =~= head + message_lines(all.take(i as int + 1)));
        i = i + 1;
    }
    assert(all.take(all.len() as int) =~= all);
}

/// The file for the conversation of a thread, with the texts of the moment; none for a
/// thread that is not there or has nothing in it.
pub fn session_to_save(
    session: &Session,
    thread_id: u128,
    date: &str,
    time: &str,
    stamp: &str,
) -> (r: Option<FileWrite>)
    ensures
        match session.thread(thread_id) {
            Some(t) => if t.history().len() == 0 {
                r is None
            } else {
                r matches Some(f) && f@ == session_file(
                    t.history(),
                    thread_id,
                    date@,
                    time@,
                    stamp@,
                )
            },
            None => r is None,
        },
{
    let messages = match session.threads.get(&thread_id) {
        None => {
            return None;
        },
        Some(thread) => thread.messages(),
    };
    if messages.len() == 0 {
        return None;
    }
    let ghost history = chat::views(messages@);
    let kept = prompt::copy_last_messages(&messages, SESSION_SAVE_MESSAGE_COUNT);
    let mut lines: Vec<String> = Vec::new();
    let title = text::cat3("# Session: ", stamp, " UTC");
    let thread = text::cat("- **Thread ID**: ", ids::to_text(thread_id).as_str());
    lines.push(title);
    lines.push(String::new());
    lines.push(thread);
    lines.push("- **Source**: /new".to_owned());
    lines.push(String::new());
    lines.push("## Conversation".to_owned());
    lines.push(String::new());
    assert(Seq::<char>::empty() =~= seq![]);
    assert(text::texts(lines@) =~= seq![
        title@,
        seq![],
        thread@,
        "- **Source**: /new"@,
        seq![],
        "## Conversation"@,
        seq![],
    ]);
    push_message_lines(&mut lines, &kept);
    assert(text::texts(lines@) =~= session_lines(history, thread_id, stamp@));
    let path = text::cat3(
        text::cat3("daily/", date, "-session-").as_str(),
        time,
        ".md",
    );
    Some(FileWrite { path, content: text::join(&lines, "\n") })
}

/// The file for the conversation of a thread, at a moment.
pub fn save_thread_before_new(session: &Session, thread_id: u128, now: i64) -> (r: Option<
    FileWrite,
>)
    requires
        clock::in_calendar(now),
    ensures
        ({
            let date = clock::formatted_time(now, "%Y-%m-%d"@)->0;
            let time = clock::formatted_time(now, "%H%M%S"@)->0;
            let stamp = clock::formatted_time(now, "%Y-%m-%d %H:%M:%S"@)->0;
            match session.thread(thread_id) {
                Some(t) => if t.history().len() == 0 {
                    r is None
                } else {
                    r matches Some(f) && f@ == session_file(
                        t.history(),
                        thread_id,
                        date,
                        time,
                        stamp,
                    )
                },
                None => r is None,
            }
        }),
{
    let date = clock::format_time(now, "%Y-%m-%d");
    let time = clock::format_time(now, "%H%M%S");
    let stamp = clock::format_time(now, "%Y-%m-%d %H:%M:%S");
    match (date, time, stamp) {
        (Some(d), Some(t), Some(s)) => session_to_save(
            session,
            thread_id,
            d.as_str(),
            t.as_str(),
            s.as_str(),
        ),
        _ => None,
    }
}

/// The attachment is a document whose text could be extracted.
pub open spec fn holds_document(a: IncomingAttachment) -> bool {
    &&& a.kind == AttachmentKind::Document
    &&& a.extracted_text is Some
    &&& a.extracted_text->0@.len() == 0 || a.extracted_text->0@[0] != '['
}

/// Documents are filed one by one: a further attachment changes nothing about the files of
/// those before it, and adds its own file after them where it holds a document.
pub proof fn documents_are_filed_one_by_one(
    user: Seq<char>,
    channel: Seq<char>,
    attachments: Seq<IncomingAttachment>,
    next: IncomingAttachment,
    date: Seq<char>,
)
    ensures
        ({
            let before = document_files(user, channel, attachments, date);
            let after = document_files(user, channel, attachments.push(next), date);
            if holds_document(next) {
                &&& document_file(user, channel, next, date) is Some
                &&& after.len() == before.len() + 1
                &&& after.drop_last() == before
                &&& Some(after.last()) == document_file(user, channel, next, date)
            } else {
                after == before
            }
        }),
        document_files(user, channel, Seq::empty(), date).len() == 0,
{
    assert(attachments.push(next).drop_last() =~= attachments);
    let before = document_files(user, channel, attachments, date);
    let after = document_files(user, channel, attachments.push(next), date);
    if holds_document(next) {
        assert(after.drop_last() =~= before);
    }
}

/// There is a file for each attachment that holds a document, in the order of the
/// attachments, and no other.
pub proof fn every_document_is_filed(
    user: Seq<char>,
    channel: Seq<char>,
    attachments: Seq<IncomingAttachment>,
    date: Seq<char>,
)
    ensures
        ({
            let kept = attachments.filter(|a: IncomingAttachment| holds_document(a));
            let files = document_files(user, channel, attachments, date);
            &&& files.len() == kept.len()
            &&& forall|i: int|
                0 <= i < files.len() ==> Some(#[trigger] files[i]) == document_file(
                    user,
                    channel,
                    kept[i],
                    date,
                )
        }),
    decreases attachments.len(),
{
    reveal(Seq::filter);
    if attachments.len() > 0 {
        let front = attachments.drop_last();
        let next = attachments.last();
        every_document_is_filed(user, channel, front, date);
        assert(front.push(next) =~= attachments);
        documents_are_filed_one_by_one(user, channel, front, next, date);
        let files = document_files(user, channel, attachments, date);
        let before = document_files(user, channel, front, date);
        let kept = attachments.filter(|a: IncomingAttachment| holds_document(a));
        assert forall|i: int| 0 <= i < files.len() implies Some(#[trigger] files[i])
            == document_file(user, channel, kept[i], date) by {
            if i < before.len() {
                assert(files[i] == before[i]);
            }
        }
    }
}

/// The header of a document says all of these.
proof fn headers_say_what_they_are_given(
    name: Seq<char>,
    user: Seq<char>,
    channel: Seq<char>,
    date: Seq<char>,
    mime: Seq<char>,
    size: nat,
)
    ensures
        ({
            let h = document_header(name, user, channel, date, mime, size);
            &&& h.len() > 0
            &&& submission::names(h, name)
            &&& submission::names(h, user)
            &&& submission::names(h, channel)
            &&& submission::names(h, date)
            &&& submission::names(h, mime)
            &&& submission::names(h, text::decimal(size))
        }),
{
    reveal_strlit("# ");
    let h1 = "# "@ + name;
    let h2 = h1 + "\n\n> Uploaded by **"@;
    let h3 = h2 + user;
    let h4 = h3 + "** via **"@;
    let h5 = h4 + channel;
    let h6 = h5 + "** on "@;
    let h7 = h6 + date;
    let h8 = h7 + "\n> MIME: "@;
    let h9 = h8 + mime;
    let h10 = h9 + " | Size: "@;
    let h11 = h10 + text::decimal(size);
    submission::parts_stay_held("# "@, name);
    submission::parts_stay_held(h1, "\n\n> Uploaded by **"@);
    submission::parts_stay_held(h2, user);
    submission::parts_stay_held(h3, "** via **"@);
    submission::parts_stay_held(h4, channel);
    submission::parts_stay_held(h5, "** on "@);
    submission::parts_stay_held(h6, date);
    submission::parts_stay_held(h7, "\n> MIME: "@);
    submission::parts_stay_held(h8, mime);
    submission::parts_stay_held(h9, " | Size: "@);
    submission::parts_stay_held(h10, text::decimal(size));
    submission::parts_stay_held(h11, " bytes\n\n---\n\n"@);
}

/// The file of a document holds its text, word for word, below a header that says whose it
/// is, where it came from and what it is, and stands under its name in the directory of the
/// date.
pub proof fn document_files_hold_the_text(
    user: Seq<char>,
    channel: Seq<char>,
    a: IncomingAttachment,
    date: Seq<char>,
)
    requires
        holds_document(a),
    ensures
        document_file(user, channel, a, date) matches Some(f) && {
            let t = a.extracted_text->0@;
            let name = filed_as(json::string_of(a.filename));
            let header = f.content.take(f.content.len() - t.len());
            &&& f.content.len() > t.len()
            &&& f.content.skip(f.content.len() - t.len()) == t
            &&& submission::names(header, name)
            &&& submission::names(header, user)
            &&& submission::names(header, channel)
            &&& submission::names(header, date)
            &&& submission::names(header, a.mime_type@)
            &&& a.size_bytes matches Some(n) ==> submission::names(
                header,
                text::decimal(n as nat),
            )
            &&& f.path == "documents/"@ + date + "/"@ + name
        },
{
    let t = a.extracted_text->0@;
    let f = document_file(user, channel, a, date)->0;
    let name = filed_as(json::string_of(a.filename));
    let size: nat = match a.size_bytes {
        Some(n) => n as nat,
        None => 0,
    };
    let h = document_header(name, user, channel, date, a.mime_type@, size);
    headers_say_what_they_are_given(name, user, channel, date, a.mime_type@, size);
    assert(f.content == h + t);
    assert((h + t).take((h + t).len() - t.len()) =~= h);
    assert((h + t).skip((h + t).len() - t.len()) =~= t);
}

proof fn undotted_drops_dots(s: Seq<char>)
    ensures
        forall|i: int| 0 <= i < s.len() - undotted(s).len() ==> #[trigger] s[i] == '.',
    decreases s.len(),
{
    if s.len() > 0 && s[0] == '.' {
        let rest = s.skip(1);
        undotted_drops_dots(rest);
        assert forall|i: int| 0 <= i < s.len() - undotted(s).len() implies #[trigger] s[i] == '.' by {
            if i > 0 {
                assert(rest[i - 1] == s[i]);
            }
        }
    }
}

/// The name that the sender gave is kept but for leading dots and for separators, which
/// become underscores; only where nothing is left of it, or none was given, the document is
/// filed as unnamed.
pub proof fn document_names_are_kept(s: Seq<char>)
    ensures
        ({
            let name = filed_as(Some(s));
            let dots = s.len() - name.len();
            let left = exists|i: int| 0 <= i < s.len() && #[trigger] s[i] != '.';
            &&& left ==> {
                &&& dots >= 0
                &&& forall|i: int| 0 <= i < dots ==> #[trigger] s[i] == '.'
                &&& forall|i: int|
                    0 <= i < name.len() ==> #[trigger] name[i] == if separates(s[dots + i]) {
                        '_'
                    } else {
                        s[dots + i]
                    }
            }
            &&& !left ==> name == "unnamed_document"@
        }),
        filed_as(None) == "unnamed_document"@,
        s.len() > 0 && s[0] != '.' && (forall|i: int|
            0 <= i < s.len() ==> !separates(#[trigger] s[i])) ==> filed_as(Some(s)) == s,
{
    let flat = flattened(s);
    let bare = undotted(flat);
    undotted_keeps(flat);
    undotted_drops_dots(flat);
    let left = exists|i: int| 0 <= i < s.len() && #[trigger] s[i] != '.';
    let dots = s.len() - bare.len();
    assert forall|i: int| 0 <= i < dots implies #[trigger] s[i] == '.' by {
        assert(flat[i] == '.');
    }
    if left {
        let i = choose|i: int| 0 <= i < s.len() && #[trigger] s[i] != '.';
        if bare.len() == 0 {
            assert(flat[i] == '.');
        }
        assert forall|i: int| 0 <= i < bare.len() implies #[trigger] bare[i] == if separates(
            s[dots + i],
        ) {
            '_'
        } else {
            s[dots + i]
        } by {
            assert(bare[i] == flat[i + dots]);
        }
    } else if bare.len() > 0 {
        assert(bare[0] == flat[dots]);
        assert(s[dots] == '.');
    }
    let none = "unnamed_document"@;
    reveal_strlit("unnamed_document");
    assert(flattened(none) =~= none);
    assert(undotted(none) == none);
    if s.len() > 0 && s[0] != '.' && (forall|i: int|
        0 <= i < s.len() ==> !separates(#[trigger] s[i])) {
        assert(flat =~= s);
        assert(undotted(s) == s);
    }
}

/// The roles are told apart by their names.
pub proof fn roles_have_different_names(a: Role, b: Role)
    requires
        role_name(a) == role_name(b),
    ensures
        a == b,
{
    reveal_strlit("user");
    reveal_strlit("assistant");
    reveal_strlit("system");
    reveal_strlit("tool");
    assert("user"@[0] == 'u');
    assert("assistant"@[0] == 'a');
    assert("system"@[0] == 's');
    assert("tool"@[0] == 't');
}

proof fn message_lines_in_pairs(messages: Seq<chat::MessageView>, i: int)
    requires
        0 <= i < messages.len(),
    ensures
        message_lines(messages).len() == 2 * messages.len(),
        message_lines(messages)[2 * i] == message_line(messages[i]),
        message_lines(messages)[2 * i + 1].len() == 0,
    decreases messages.len(),
{
    let front = messages.drop_last();
    if front.len() == 0 {
        assert(message_lines(front).len() == 0);
    } else if i < front.len() {
        message_lines_in_pairs(front, i);
    } else {
        message_lines_in_pairs(front, 0);
    }
}

/// Of a conversation that is put aside the last fifteen messages are kept, all of them where
/// there are no more, in order: each has a line that begins with its role and ends with its
/// text, and an empty line after it.
pub proof fn saved_conversations_keep_the_last_messages(
    history: Seq<chat::MessageView>,
    thread_id: u128,
    stamp: Seq<char>,
    i: int,
)
    requires
        0 <= i < history.len(),
        i >= history.len() - 15,
    ensures
        ({
            let lines = session_lines(history, thread_id, stamp);
            let kept: int = if history.len() > 15 {
                15
            } else {
                history.len() as int
            };
            let at = 7 + 2 * (i - (history.len() - kept));
            let line = lines[at];
            let t = text::trimmed(history[i].content);
            &&& lines.len() == 7 + 2 * kept
            &&& line.len() > t.len()
            &&& line.skip(line.len() - t.len()) == t
            &&& submission::names(line.take(line.len() - t.len()), role_name(history[i].role))
            &&& lines[at + 1].len() == 0
        }),
{
    let kept = prompt::last_messages(history, 15);
    let j = i - (history.len() - kept.len());
    message_lines_in_pairs(kept, j);
    assert(kept[j] == history[i]);
    let lines = session_lines(history, thread_id, stamp);
    let line = message_line(history[i]);
    let t = text::trimmed(history[i].content);
    assert(lines[7 + 2 * j] == line);
    let role = role_name(history[i].role);
    reveal_strlit("**");
    reveal_strlit("**: ");
    assert(line.skip(line.len() - t.len()) =~= t);
    assert(line.take(line.len() - t.len()) =~= "**"@ + role + "**: "@);
    submission::parts_are_held("**"@, role, "**: "@);
}

/// The file of a conversation is named after the moment, and says above the conversation
/// which thread it was and when.
pub proof fn saved_conversations_are_dated(
    history: Seq<chat::MessageView>,
    thread_id: u128,
    date: Seq<char>,
    time: Seq<char>,
    stamp: Seq<char>,
)
    ensures
        ({
            let f = session_file(history, thread_id, date, time, stamp);
            let lines = session_lines(history, thread_id, stamp);
            &&& submission::names(f.path, date)
            &&& submission::names(f.path, time)
            &&& submission::names(lines[0], stamp)
            &&& submission::names(lines[2], ids::id_text(thread_id))
            &&& lines.len() >= 7
            &&& f.content == text::joined(lines, seq!['\n'])
        }),
{
    reveal_strlit("\n");
    assert("\n"@ =~= seq!['\n']);
    let daily = "daily/"@;
    let mark = "-session-"@;
    let end = ".md"@;
    let path = daily + date + mark + time + end;
    submission::parts_are_held(daily, date, mark + time + end);
    assert(path =~= daily + date + (mark + time + end));
    submission::parts_are_held(daily + date + mark, time, end);
    submission::parts_are_held("# Session: "@, stamp, " UTC"@);
    let head = "- **Thread ID**: "@;
    let id = ids::id_text(thread_id);
    submission::parts_are_held(head, id, seq![]);
    assert(head + id + Seq::<char>::empty() =~= head + id);
}

/// The characters that separate the parts of a path, or end it, are these three.
pub proof fn separators_are_these(c: char)
    ensures
        separates('/'),
        separates('\\'),
        separates('\0'),
        separates(c) ==> c == '/' || c == '\\' || c == '\0',
{
}

} // verus!
