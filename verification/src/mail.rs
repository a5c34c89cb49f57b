//! Building the e-mail with lettre's message builder: which addresses are
//! checked in which order, and which MIME layout the body gets.

use vstd::prelude::*;
use lettre::address::AddressError;
use lettre::message::header::{ContentType, ContentTypeErr, HeaderName, HeaderValue, InvalidHeaderName};
use lettre::message::{Attachment, Mailbox, MessageBuilder, MultiPart, MultiPartBuilder, SinglePart};
use lettre::Message;
use crate::send::{
    extra_headers, from_full_text, header_accepted, header_split, lemma_header_split_is_extra_header_of,
    parse_extra_header, reserved_header, valid_header_name, SendParams,
};

verus! {

#[verifier::external_type_specification]
#[verifier::external_body]
pub struct ExMessageBuilder(MessageBuilder);

#[verifier::external_type_specification]
#[verifier::external_body]
pub struct ExMessage(Message);

#[verifier::external_type_specification]
#[verifier::external_body]
pub struct ExMailbox(Mailbox);

#[verifier::external_type_specification]
#[verifier::external_body]
pub struct ExAddressError(AddressError);

#[verifier::external_type_specification]
#[verifier::external_body]
pub struct ExEmailError(lettre::error::Error);

#[verifier::external_type_specification]
#[verifier::external_body]
pub struct ExMultiPart(MultiPart);

#[verifier::external_type_specification]
#[verifier::external_body]
pub struct ExMultiPartBuilder(MultiPartBuilder);

#[verifier::external_type_specification]
#[verifier::external_body]
pub struct ExSinglePart(SinglePart);

#[verifier::external_type_specification]
#[verifier::external_body]
pub struct ExAttachment(Attachment);

#[verifier::external_type_specification]
#[verifier::external_body]
pub struct ExContentType(ContentType);

#[verifier::external_type_specification]
#[verifier::external_body]
pub struct ExContentTypeErr(ContentTypeErr);

#[verifier::external_type_specification]
#[verifier::external_body]
pub struct ExHeaderName(HeaderName);

#[verifier::external_type_specification]
#[verifier::external_body]
pub struct ExInvalidHeaderName(InvalidHeaderName);

/// Whether lettre's mailbox parser (`Mailbox::from_str`) accepts a text.
pub uninterp spec fn mailbox_parses(s: Seq<char>) -> bool;

/// A parsed mailbox with the text it was parsed from.
pub struct ParsedMailbox {
    mailbox: Mailbox,
    text: Ghost<Seq<char>>,
}

impl View for ParsedMailbox {
    type V = Seq<char>;

    closed spec fn view(&self) -> Seq<char> {
        self.text@
    }
}

/// What the message builder has been handed, in order: the mailboxes
/// (by the text each was parsed from), the subject and the extra headers.
/// It records the calls, not the headers lettre ends up writing: lettre
/// keeps one header per name (a later extra header of a name replaces an
/// earlier one) and starts an address list afresh when the text it wrote
/// for it no longer parses.
pub struct DraftView {
    pub from: Seq<Seq<char>>,
    pub subject: Option<Seq<char>>,
    pub to: Seq<Seq<char>>,
    pub cc: Seq<Seq<char>>,
    pub bcc: Seq<Seq<char>>,
    pub reply_to: Seq<Seq<char>>,
    /// Extra `(name, value)` headers.
    pub extra: Seq<(Seq<char>, Seq<char>)>,
}

pub open spec fn empty_draft() -> DraftView {
    DraftView {
        from: Seq::empty(),
        subject: None,
        to: Seq::empty(),
        cc: Seq::empty(),
        bcc: Seq::empty(),
        reply_to: Seq::empty(),
        extra: Seq::empty(),
    }
}

/// No extra header replaces one that the builder sets itself.
pub open spec fn extras_unreserved(v: DraftView) -> bool {
    forall|i: int| 0 <= i < v.extra.len() ==> !reserved_header(#[trigger] v.extra[i].0)
}

/// lettre's message builder with what it has been handed.
pub struct Draft {
    builder: MessageBuilder,
    view: Ghost<DraftView>,
}

impl View for Draft {
    type V = DraftView;

    closed spec fn view(&self) -> DraftView {
        self.view@
    }
}

impl Draft {
    #[verifier::type_invariant]
    spec fn draft_invariant(self) -> bool {
        extras_unreserved(self.view@)
    }
}

/// One part of a MIME body.
pub enum PartView {
    /// `text/plain` text.
    Plain(Seq<char>),
    /// `text/html` text.
    Html(Seq<char>),
    /// An attachment: file name, content and content type.
    Attached(Seq<char>, Seq<u8>, Seq<char>),
    /// A nested multipart of this kind with these parts.
    Nested(MultiKind, Seq<PartView>),
}

#[derive(Debug, Clone, Copy, PartialEq, Eq, Structural)]
pub enum MultiKind {
    Alternative,
    Mixed,
}

/// The body of a message.
pub enum BodyView {
    /// A single text body.
    Text(Seq<char>),
    /// A multipart body of this kind with these parts, in order.
    Multi(MultiKind, Seq<PartView>),
}

/// A message: the headers handed to the builder and the body.
pub struct MailView {
    pub head: DraftView,
    pub body: BodyView,
}

/// At least one `From` mailbox and at least one recipient were handed to the
/// builder; lettre refuses every message without them.
pub open spec fn has_sender_and_recipient(v: DraftView) -> bool {
    v.from.len() > 0 && v.to.len() + v.cc.len() + v.bcc.len() > 0
}

/// Whether `MessageBuilder::body` builds a message from a builder that was
/// handed `v`. lettre reads the sender and recipient headers back from the
/// text it wrote for them and refuses the message when that text no longer
/// parses, when there is more than one sender, or when there is no sender or
/// no recipient.
pub uninterp spec fn body_builds(v: DraftView) -> bool;

/// Whether `MessageBuilder::multipart` builds a message from a builder that
/// was handed `v` (the same checks as `body_builds`).
pub uninterp spec fn multipart_builds(v: DraftView) -> bool;

/// A single MIME part with what it holds.
pub struct Part {
    part: SinglePart,
    view: Ghost<PartView>,
}

impl View for Part {
    type V = PartView;

    closed spec fn view(&self) -> PartView {
        self.view@
    }
}

/// A multipart that has no part yet.
pub struct MultiStart {
    builder: MultiPartBuilder,
    kind: Ghost<MultiKind>,
}

impl View for MultiStart {
    type V = MultiKind;

    closed spec fn view(&self) -> MultiKind {
        self.kind@
    }
}

/// A multipart with its kind and parts.
pub struct Multi {
    multipart: MultiPart,
    view: Ghost<(MultiKind, Seq<PartView>)>,
}

impl View for Multi {
    type V = (MultiKind, Seq<PartView>);

    closed spec fn view(&self) -> (MultiKind, Seq<PartView>) {
        self.view@
    }
}

/// An attachment that has a file name and no content yet.
pub struct AttachmentStart {
    attachment: Attachment,
    name: Ghost<Seq<char>>,
}

impl View for AttachmentStart {
    type V = Seq<char>;

    closed spec fn view(&self) -> Seq<char> {
        self.name@
    }
}

/// A content type with the text it was parsed from.
pub struct MediaType {
    content_type: ContentType,
    text: Ghost<Seq<char>>,
}

impl View for MediaType {
    type V = Seq<char>;

    closed spec fn view(&self) -> Seq<char> {
        self.text@
    }
}

/// A header name with its text.
pub struct NamedHeader {
    name: HeaderName,
    text: Ghost<Seq<char>>,
}

impl View for NamedHeader {
    type V = Seq<char>;

    closed spec fn view(&self) -> Seq<char> {
        self.text@
    }
}

/// A finished message with its headers and body.
pub struct Mail {
    message: Message,
    view: Ghost<MailView>,
}

impl View for Mail {
    type V = MailView;

    closed spec fn view(&self) -> MailView {
        self.view@
    }
}

impl Mail {
    /// The lettre message, to send.
    pub fn into_message(self) -> Message {
        self.message
    }
}

/// Calls `<Mailbox as FromStr>::from_str`. It succeeds exactly on the texts
/// named by `mailbox_parses`; the mailbox is kept with the text it came from.
#[verifier::external_body]
fn parse_mailbox(s: &str) -> (res: Result<ParsedMailbox, AddressError>)
    ensures
        res is Ok <==> mailbox_parses(s@),
        res matches Ok(m) ==> m@ == s@,
{
    match s.parse::<Mailbox>() {
        Ok(m) => Ok(ParsedMailbox { mailbox: m, text: Ghost(s@) }),
        Err(e) => Err(e),
    }
}

/// Calls `AddressError`'s `Display`; nothing is stated of the text.
#[verifier::external_body]
fn address_error_text(e: &AddressError) -> String {
    e.to_string()
}

/// Calls `lettre::error::Error`'s `Display`; nothing is stated of the text.
#[verifier::external_body]
fn email_error_text(e: &lettre::error::Error) -> String {
    e.to_string()
}

/// Calls `Message::builder`: nothing handed yet.
#[verifier::external_body]
fn message_builder() -> (res: Draft)
    ensures
        res@ == empty_draft(),
{
    Draft { builder: Message::builder(), view: Ghost(empty_draft()) }
}

/// Calls `MessageBuilder::from` (adds a `From` mailbox).
#[verifier::external_body]
fn set_from(b: Draft, m: ParsedMailbox) -> (res: Draft)
    ensures
        res@ == (DraftView { from: b@.from.push(m@), ..b@ }),
{
    let ghost v = DraftView { from: b@.from.push(m@), ..b@ };
    Draft { builder: b.builder.from(m.mailbox), view: Ghost(v) }
}

/// Calls `MessageBuilder::subject`.
#[verifier::external_body]
fn set_subject(b: Draft, s: String) -> (res: Draft)
    ensures
        res@ == (DraftView { subject: Some(s@), ..b@ }),
{
    let ghost v = DraftView { subject: Some(s@), ..b@ };
    Draft { builder: b.builder.subject(s), view: Ghost(v) }
}

/// Calls `MessageBuilder::to` (adds a `To` mailbox).
#[verifier::external_body]
fn add_to(b: Draft, m: ParsedMailbox) -> (res: Draft)
    ensures
        res@ == (DraftView { to: b@.to.push(m@), ..b@ }),
{
    let ghost v = DraftView { to: b@.to.push(m@), ..b@ };
    Draft { builder: b.builder.to(m.mailbox), view: Ghost(v) }
}

/// Calls `MessageBuilder::cc` (adds a `Cc` mailbox).
#[verifier::external_body]
fn add_cc(b: Draft, m: ParsedMailbox) -> (res: Draft)
    ensures
        res@ == (DraftView { cc: b@.cc.push(m@), ..b@ }),
{
    let ghost v = DraftView { cc: b@.cc.push(m@), ..b@ };
    Draft { builder: b.builder.cc(m.mailbox), view: Ghost(v) }
}

/// Calls `MessageBuilder::bcc` (adds a `Bcc` mailbox).
#[verifier::external_body]
fn add_bcc(b: Draft, m: ParsedMailbox) -> (res: Draft)
    ensures
        res@ == (DraftView { bcc: b@.bcc.push(m@), ..b@ }),
{
    let ghost v = DraftView { bcc: b@.bcc.push(m@), ..b@ };
    Draft { builder: b.builder.bcc(m.mailbox), view: Ghost(v) }
}

/// Calls `MessageBuilder::reply_to` (adds a `Reply-To` mailbox).
#[verifier::external_body]
fn set_reply_to(b: Draft, m: ParsedMailbox) -> (res: Draft)
    ensures
        res@ == (DraftView { reply_to: b@.reply_to.push(m@), ..b@ }),
{
    let ghost v = DraftView { reply_to: b@.reply_to.push(m@), ..b@ };
    Draft { builder: b.builder.reply_to(m.mailbox), view: Ghost(v) }
}

/// Calls `HeaderName::new_from_ascii`, which accepts exactly 1 to 76 ASCII
/// characters without `:` or space.
#[verifier::external_body]
fn header_name(name: String) -> (res: Result<NamedHeader, InvalidHeaderName>)
    ensures
        res is Ok <==> valid_header_name(name@),
        res matches Ok(n) ==> n@ == name@,
{
    let ghost t = name@;
    match HeaderName::new_from_ascii(name) {
        Ok(n) => Ok(NamedHeader { name: n, text: Ghost(t) }),
        Err(e) => Err(e),
    }
}

/// Calls `MessageBuilder::raw_header` with `HeaderValue::new` of the name and
/// value (an extra header).
#[verifier::external_body]
fn add_header(b: Draft, name: NamedHeader, value: String) -> (res: Draft)
    requires
        !reserved_header(name@),
    ensures
        res@ == (DraftView { extra: b@.extra.push((name@, value@)), ..b@ }),
{
    let ghost v = DraftView { extra: b@.extra.push((name@, value@)), ..b@ };
    Draft { builder: b.builder.raw_header(HeaderValue::new(name.name, value)), view: Ghost(v) }
}

/// Calls `MessageBuilder::body` with a text body. Whether lettre builds the
/// message is a function of what the builder was handed, named
/// `body_builds`; it never does without a sender and a recipient. It panics
/// on a body that an extra `Content-Transfer-Encoding` header cannot
/// encode; a draft holds no such header.
#[verifier::external_body]
fn finish_with_body(b: Draft, body: String) -> (res: Result<Mail, lettre::error::Error>)
    requires
        extras_unreserved(b@),
    ensures
        res is Ok <==> body_builds(b@),
        res is Ok ==> has_sender_and_recipient(b@),
        res matches Ok(m) ==> m@ == (MailView { head: b@, body: BodyView::Text(body@) }),
{
    let ghost v = MailView { head: b@, body: BodyView::Text(body@) };
    match b.builder.body(body) {
        Ok(m) => Ok(Mail { message: m, view: Ghost(v) }),
        Err(e) => Err(e),
    }
}

/// Calls `MessageBuilder::multipart`. Whether lettre builds the message is a
/// function of what the builder was handed, named `multipart_builds`; it
/// never does without a sender and a recipient.
#[verifier::external_body]
fn finish_with_multipart(b: Draft, part: Multi) -> (res: Result<Mail, lettre::error::Error>)
    requires
        extras_unreserved(b@),
    ensures
        res is Ok <==> multipart_builds(b@),
        res is Ok ==> has_sender_and_recipient(b@),
        res matches Ok(m) ==> m@ == (MailView { head: b@, body: BodyView::Multi(part@.0, part@.1) }),
{
    let ghost v = MailView { head: b@, body: BodyView::Multi(part@.0, part@.1) };
    match b.builder.multipart(part.multipart) {
        Ok(m) => Ok(Mail { message: m, view: Ghost(v) }),
        Err(e) => Err(e),
    }
}

/// Calls `MultiPart::alternative`.
#[verifier::external_body]
fn alternative() -> (res: MultiStart)
    ensures
        res@ == MultiKind::Alternative,
{
    MultiStart { builder: MultiPart::alternative(), kind: Ghost(MultiKind::Alternative) }
}

/// Calls `MultiPart::mixed`.
#[verifier::external_body]
fn mixed() -> (res: MultiStart)
    ensures
        res@ == MultiKind::Mixed,
{
    MultiStart { builder: MultiPart::mixed(), kind: Ghost(MultiKind::Mixed) }
}

/// Calls `MultiPartBuilder::singlepart` (first part of a new multipart).
#[verifier::external_body]
fn first_part(b: MultiStart, p: Part) -> (res: Multi)
    ensures
        res@ == (b@, seq![p@]),
{
    let ghost v = (b@, seq![p@]);
    Multi { multipart: b.builder.singlepart(p.part), view: Ghost(v) }
}

/// Calls `MultiPartBuilder::multipart` (a nested multipart as first part of
/// a new multipart).
#[verifier::external_body]
fn first_nested(b: MultiStart, inner: Multi) -> (res: Multi)
    ensures
        res@ == (b@, seq![PartView::Nested(inner@.0, inner@.1)]),
{
    let ghost v = (b@, seq![PartView::Nested(inner@.0, inner@.1)]);
    Multi { multipart: b.builder.multipart(inner.multipart), view: Ghost(v) }
}

/// Calls `MultiPart::singlepart` (appends a part).
#[verifier::external_body]
fn add_part(m: Multi, p: Part) -> (res: Multi)
    ensures
        res@ == (m@.0, m@.1.push(p@)),
{
    let ghost v = (m@.0, m@.1.push(p@));
    Multi { multipart: m.multipart.singlepart(p.part), view: Ghost(v) }
}

/// Calls `SinglePart::plain`.
#[verifier::external_body]
fn plain_part(body: String) -> (res: Part)
    ensures
        res@ == PartView::Plain(body@),
{
    let ghost v = PartView::Plain(body@);
    Part { part: SinglePart::plain(body), view: Ghost(v) }
}

/// Calls `SinglePart::html`.
#[verifier::external_body]
fn html_part(body: String) -> (res: Part)
    ensures
        res@ == PartView::Html(body@),
{
    let ghost v = PartView::Html(body@);
    Part { part: SinglePart::html(body), view: Ghost(v) }
}

/// Calls `Attachment::new`.
#[verifier::external_body]
fn attachment(file_name: String) -> (res: AttachmentStart)
    ensures
        res@ == file_name@,
{
    let ghost v = file_name@;
    AttachmentStart { attachment: Attachment::new(file_name), name: Ghost(v) }
}

/// Calls `Attachment::body`.
#[verifier::external_body]
fn attachment_body(a: AttachmentStart, data: Vec<u8>, ct: MediaType) -> (res: Part)
    ensures
        res@ == PartView::Attached(a@, data@, ct@),
{
    let ghost v = PartView::Attached(a@, data@, ct@);
    Part { part: a.attachment.body(data, ct.content_type), view: Ghost(v) }
}

/// Calls `ContentType::parse`, which parses a MIME type; it accepts
/// `application/octet-stream`. Which other texts it accepts is not stated.
#[verifier::external_body]
fn parse_content_type(s: &str) -> (res: Result<MediaType, ContentTypeErr>)
    ensures
        s@ == "application/octet-stream"@ ==> res is Ok,
        res matches Ok(c) ==> c@ == s@,
{
    match ContentType::parse(s) {
        Ok(c) => Ok(MediaType { content_type: c, text: Ghost(s@) }),
        Err(e) => Err(e),
    }
}

/// Why a message could not be built.
#[derive(Debug, Clone)]
pub enum MessageError {
    /// The sender `NAME <ADDRESS>` does not parse; holds the parser's reason.
    InvalidFrom(String),
    /// A `To` address does not parse: the address and the reason.
    InvalidTo(String, String),
    InvalidCc(String, String),
    InvalidBcc(String, String),
    InvalidReplyTo(String),
    /// lettre refused the message or a part of it; holds its reason.
    Build(String),
}

/// How the body of the message is laid out.
#[derive(Debug, Clone, Copy, PartialEq, Eq, Structural)]
pub enum MessageLayout {
    /// A single text body.
    Text,
    /// `multipart/alternative`: the text body, then the HTML body.
    Alternative,
    /// `multipart/mixed`: a nested `multipart/alternative` of the text body
    /// (then the HTML body when given), then each attachment.
    Mixed,
}

/// The layout for a message with or without attachments.
pub open spec fn layout_of(has_html: bool, has_attachments: bool) -> MessageLayout {
    if has_attachments {
        MessageLayout::Mixed
    } else if has_html {
        MessageLayout::Alternative
    } else {
        MessageLayout::Text
    }
}

/// Every text in `list` parses as a mailbox.
pub open spec fn all_parse(list: Seq<String>) -> bool {
    forall|i: int| 0 <= i < list.len() ==> mailbox_parses(#[trigger] list[i]@)
}

/// `a` is the first text of `list` that does not parse.
pub open spec fn first_bad(list: Seq<String>, a: Seq<char>) -> bool {
    exists|i: int|
        0 <= i < list.len() && !mailbox_parses(#[trigger] list[i]@) && list[i]@ == a
            && forall|j: int| 0 <= j < i ==> mailbox_parses(#[trigger] list[j]@)
}

/// The texts of a list of strings.
pub open spec fn texts(list: Seq<String>) -> Seq<Seq<char>> {
    list.map_values(|s: String| s@)
}

/// What the builder for `p` is handed: the sender `NAME <ADDRESS>`, the
/// subject, the `To`, `Cc` and `Bcc` addresses in the order given, the
/// reply address when there is one, and the accepted extra headers.
pub open spec fn draft_for(p: SendParams) -> DraftView {
    DraftView {
        from: seq![from_full_text(p)],
        subject: Some(p.subject@),
        to: texts(p.to@),
        cc: texts(p.cc@),
        bcc: texts(p.bcc@),
        reply_to: match p.reply_to {
            Some(r) => seq![r@],
            None => Seq::empty(),
        },
        extra: extra_headers(p.headers@),
    }
}

/// The outcome of checking the addresses of `p` in the order sender, `To`,
/// `Cc`, `Bcc`, `Reply-To`: when all parse, the draft `draft_for(p)`;
/// otherwise the first failure in that order.
pub open spec fn addresses_outcome(p: SendParams, res: Result<Draft, MessageError>) -> bool {
    let from_ok = mailbox_parses(from_full_text(p));
    let reply_ok = match p.reply_to {
        Some(r) => mailbox_parses(r@),
        None => true,
    };
    match res {
        Ok(d) => from_ok && all_parse(p.to@) && all_parse(p.cc@) && all_parse(p.bcc@) && reply_ok && d@
            == draft_for(p),
        Err(MessageError::InvalidFrom(_)) => !from_ok,
        Err(MessageError::InvalidTo(a, _)) => from_ok && first_bad(p.to@, a@),
        Err(MessageError::InvalidCc(a, _)) => from_ok && all_parse(p.to@) && first_bad(p.cc@, a@),
        Err(MessageError::InvalidBcc(a, _)) => from_ok && all_parse(p.to@) && all_parse(p.cc@) && first_bad(
            p.bcc@,
            a@,
        ),
        Err(MessageError::InvalidReplyTo(_)) => from_ok && all_parse(p.to@) && all_parse(p.cc@) && all_parse(p.bcc@)
            && !reply_ok,
        Err(MessageError::Build(_)) => false,
    }
}

/// Which of the address lists a recipient goes to.
#[derive(Clone, Copy)]
enum Field {
    To,
    Cc,
    Bcc,
}

/// The draft with `more` appended to the list `field` names.
spec fn with_recipients(v: DraftView, field: Field, more: Seq<Seq<char>>) -> DraftView {
    match field {
        Field::To => DraftView { to: v.to + more, ..v },
        Field::Cc => DraftView { cc: v.cc + more, ..v },
        Field::Bcc => DraftView { bcc: v.bcc + more, ..v },
    }
}

/// Adds every address of `list` to the builder in order, stopping at the
/// first that does not parse.
fn add_recipients(b: Draft, list: &Vec<String>, field: Field) -> (res: Result<Draft, (String, String)>)
    ensures
        res is Ok <==> all_parse(list@),
        res matches Ok(d) ==> d@ == with_recipients(b@, field, texts(list@)),
        res matches Err((a, _)) ==> first_bad(list@, a@),
{
    let ghost start = b@;
    let mut b = b;
    let mut i: usize = 0;
    while i < list.len()
        invariant
            i <= list@.len(),
            forall|j: int| 0 <= j < i ==> mailbox_parses(#[trigger] list@[j]@),
            b@ == with_recipients(start, field, texts(list@.take(i as int))),
        decreases list@.len() - i,
    {
        match parse_mailbox(list[i].as_str()) {
            Ok(m) => {
                b = match field {
                    Field::To => add_to(b, m),
                    Field::Cc => add_cc(b, m),
                    Field::Bcc => add_bcc(b, m),
                };
                assert(texts(list@.take(i + 1)) =~= texts(list@.take(i as int)).push(list@[i as int]@));
                match field {
                    Field::To => assert(start.to + texts(list@.take(i + 1)) =~= (start.to + texts(
                        list@.take(i as int),
                    )).push(list@[i as int]@)),
                    Field::Cc => assert(start.cc + texts(list@.take(i + 1)) =~= (start.cc + texts(
                        list@.take(i as int),
                    )).push(list@[i as int]@)),
                    Field::Bcc => assert(start.bcc + texts(list@.take(i + 1)) =~= (start.bcc + texts(
                        list@.take(i as int),
                    )).push(list@[i as int]@)),
                }
            },
            Err(e) => {
                assert(first_bad(list@, list@[i as int]@));
                return Err((list[i].clone(), address_error_text(&e)));
            },
        }
        i = i + 1;
    }
    assert(list@.take(i as int) =~= list@);
    Ok(b)
}

/// Adds each well-formed extra header whose key is accepted, in order.
fn add_extra_headers(b: Draft, hs: &Vec<String>) -> (res: Draft)
    ensures
        res@ == (DraftView { extra: b@.extra + extra_headers(hs@), ..b@ }),
{
    let ghost start = b@;
    let mut b = b;
    let mut i: usize = 0;
    assert(hs@.take(0) =~= Seq::<String>::empty());
    assert(start.extra + extra_headers(Seq::<String>::empty()) =~= start.extra);
    while i < hs.len()
        invariant
            i <= hs@.len(),
            b@ == (DraftView { extra: start.extra + extra_headers(hs@.take(i as int)), ..start }),
        decreases hs@.len() - i,
    {
        proof {
            use_type_invariant(&b);
        }
        let ghost before = b@;
        let split = parse_extra_header(hs[i].as_str());
        proof {
            lemma_header_split_is_extra_header_of(hs@[i as int]@, split);
            assert(hs@.take(i + 1).drop_last() =~= hs@.take(i as int));
            assert(hs@.take(i + 1).last() == hs@[i as int]);
        }
        match split {
            Some((k, v)) => {
                if crate::send::header_key_accepted(k.as_str()) {
                    match header_name(k) {
                        Ok(n) => {
                            b = add_header(b, n, v);
                            assert(start.extra + extra_headers(hs@.take(i + 1)) =~= before.extra.push(
                                (b@.extra.last()),
                            ));
                        },
                        Err(_) => {},
                    }
                }
            },
            None => {},
        }
        i = i + 1;
    }
    assert(hs@.take(i as int) =~= hs@);
    b
}

/// Starts the message: sender, subject, recipients and reply address, each
/// checked by lettre's mailbox parser in that order, then the accepted
/// extra headers.
pub fn message_headers(p: &SendParams) -> (res: Result<Draft, MessageError>)
    ensures
        addresses_outcome(*p, res),
{
    let from_full = p.from_full();
    let from = match parse_mailbox(from_full.as_str()) {
        Ok(m) => m,
        Err(e) => {
            return Err(MessageError::InvalidFrom(address_error_text(&e)));
        },
    };
    let mut b = set_subject(set_from(message_builder(), from), p.subject.clone());
    b = match add_recipients(b, &p.to, Field::To) {
        Ok(b) => b,
        Err((a, why)) => {
            return Err(MessageError::InvalidTo(a, why));
        },
    };
    b = match add_recipients(b, &p.cc, Field::Cc) {
        Ok(b) => b,
        Err((a, why)) => {
            return Err(MessageError::InvalidCc(a, why));
        },
    };
    b = match add_recipients(b, &p.bcc, Field::Bcc) {
        Ok(b) => b,
        Err((a, why)) => {
            return Err(MessageError::InvalidBcc(a, why));
        },
    };
    match &p.reply_to {
        Some(r) => match parse_mailbox(r.as_str()) {
            Ok(m) => {
                b = set_reply_to(b, m);
            },
            Err(e) => {
                return Err(MessageError::InvalidReplyTo(address_error_text(&e)));
            },
        },
        None => {},
    }
    let b = add_extra_headers(b, &p.headers);
    assert(b@ =~= draft_for(*p));
    Ok(b)
}

/// The layout the body of `p` gets, with or without attachments.
pub fn message_layout(p: &SendParams, has_attachments: bool) -> (res: MessageLayout)
    ensures
        res == layout_of(p.html is Some, has_attachments),
{
    if has_attachments {
        MessageLayout::Mixed
    } else if p.html.is_some() {
        MessageLayout::Alternative
    } else {
        MessageLayout::Text
    }
}

/// The parts for the attachments, each `application/octet-stream`.
pub open spec fn attachment_parts(atts: Seq<(String, Vec<u8>)>) -> Seq<PartView> {
    atts.map_values(|a: (String, Vec<u8>)| PartView::Attached(a.0@, a.1@, "application/octet-stream"@))
}

/// The text body, then the HTML body when there is one.
pub open spec fn text_parts(p: SendParams) -> Seq<PartView> {
    match p.html {
        Some(h) => seq![PartView::Plain(p.body@), PartView::Html(h@)],
        None => seq![PartView::Plain(p.body@)],
    }
}

/// The body of the message for `p` with these attachments, in the layout
/// `layout_of` picks: the text alone; the text then the HTML as
/// alternatives; or those alternatives (the text alone without HTML)
/// followed by the attachments.
pub open spec fn body_for(p: SendParams, atts: Seq<(String, Vec<u8>)>) -> BodyView {
    match layout_of(p.html is Some, atts.len() > 0) {
        MessageLayout::Text => BodyView::Text(p.body@),
        MessageLayout::Alternative => BodyView::Multi(
            MultiKind::Alternative,
            seq![PartView::Plain(p.body@), PartView::Html(p.html->0@)],
        ),
        MessageLayout::Mixed => BodyView::Multi(
            MultiKind::Mixed,
            seq![PartView::Nested(MultiKind::Alternative, text_parts(p))] + attachment_parts(atts),
        ),
    }
}

/// Whether lettre builds the message for `p` with or without attachments:
/// the check of the text-body call or of the multipart call, as the layout
/// requires.
pub open spec fn body_accepted(v: DraftView, p: SendParams, has_attachments: bool) -> bool {
    if layout_of(p.html is Some, has_attachments) == MessageLayout::Text {
        body_builds(v)
    } else {
        multipart_builds(v)
    }
}

/// Finishes the message with its body in the layout `message_layout` picks,
/// attaching each `(file name, content)` as `application/octet-stream`.
/// It is built exactly when lettre builds it (`body_accepted`); the only
/// errors are lettre's refusals.
pub fn message_body(b: Draft, p: &SendParams, attachments: &Vec<(String, Vec<u8>)>) -> (res: Result<Mail, MessageError>)
    ensures
        res matches Err(e) ==> e is Build,
        res is Ok <==> body_accepted(b@, *p, attachments@.len() > 0),
        res is Ok ==> has_sender_and_recipient(b@),
        res matches Ok(m) ==> m@ == (MailView { head: b@, body: body_for(*p, attachments@) }),
{
    proof {
        use_type_invariant(&b);
    }
    let layout = message_layout(p, attachments.len() > 0);
    let built = match layout {
        MessageLayout::Text => finish_with_body(b, p.body.clone()),
        MessageLayout::Alternative => {
            let html = match &p.html {
                Some(h) => h.clone(),
                None => String::new(),
            };
            let mp = add_part(first_part(alternative(), plain_part(p.body.clone())), html_part(html));
            assert(mp@.1 =~= seq![PartView::Plain(p.body@), PartView::Html(p.html->0@)]);
            finish_with_multipart(b, mp)
        },
        MessageLayout::Mixed => {
            let text = first_part(alternative(), plain_part(p.body.clone()));
            let inner = match &p.html {
                Some(h) => add_part(text, html_part(h.clone())),
                None => text,
            };
            assert(inner@.1 =~= text_parts(*p));
            let ghost first = PartView::Nested(MultiKind::Alternative, text_parts(*p));
            let mut mp = first_nested(mixed(), inner);
            let mut i: usize = 0;
            proof {
                reveal_strlit("application/octet-stream");
                assert(attachment_parts(attachments@.take(0)) =~= Seq::<PartView>::empty());
                assert(seq![first] + Seq::<PartView>::empty() =~= seq![first]);
            }
            while i < attachments.len()
                invariant
                    i <= attachments@.len(),
                    mp@ == (MultiKind::Mixed, seq![first] + attachment_parts(attachments@.take(i as int))),
                decreases attachments@.len() - i,
            {
                let ct = match parse_content_type("application/octet-stream") {
                    Ok(ct) => ct,
                    Err(_) => {
                        return Err(MessageError::Build(String::from_str("invalid content type")));
                    },
                };
                let name = attachments[i].0.clone();
                let data = attachments[i].1.clone();
                mp = add_part(mp, attachment_body(attachment(name), data, ct));
                assert(attachment_parts(attachments@.take(i + 1)) =~= attachment_parts(
                    attachments@.take(i as int),
                ).push(PartView::Attached(attachments@[i as int].0@, attachments@[i as int].1@, "application/octet-stream"@)));
                assert(seq![first] + attachment_parts(attachments@.take(i + 1)) =~= (seq![first]
                    + attachment_parts(attachments@.take(i as int))).push(
                    PartView::Attached(attachments@[i as int].0@, attachments@[i as int].1@, "application/octet-stream"@),
                ));
                i = i + 1;
            }
            assert(attachments@.take(i as int) =~= attachments@);
            finish_with_multipart(b, mp)
        },
    };
    match built {
        Ok(m) => Ok(m),
        Err(e) => Err(MessageError::Build(email_error_text(&e))),
    }
}


/// The message of a build failure (the reason from lettre is kept apart).
pub open spec fn message_error_text(e: MessageError) -> Seq<char> {
    match e {
        MessageError::InvalidFrom(_) => "Invalid From address"@,
        MessageError::InvalidTo(a, _) => "Invalid To: "@ + a@,
        MessageError::InvalidCc(a, _) => "Invalid CC: "@ + a@,
        MessageError::InvalidBcc(a, _) => "Invalid BCC: "@ + a@,
        MessageError::InvalidReplyTo(_) => "Invalid Reply-To"@,
        MessageError::Build(why) => why@,
    }
}

impl MessageError {
    /// What went wrong, as shown to the user.
    pub fn message(&self) -> (res: String)
        ensures
            res@ == message_error_text(*self),
    {
        match self {
            MessageError::InvalidFrom(_) => String::from_str("Invalid From address"),
            MessageError::InvalidTo(a, _) => {
                let mut t = String::from_str("Invalid To: ");
                t.append(a.as_str());
                t
            },
            MessageError::InvalidCc(a, _) => {
                let mut t = String::from_str("Invalid CC: ");
                t.append(a.as_str());
                t
            },
            MessageError::InvalidBcc(a, _) => {
                let mut t = String::from_str("Invalid BCC: ");
                t.append(a.as_str());
                t
            },
            MessageError::InvalidReplyTo(_) => String::from_str("Invalid Reply-To"),
            MessageError::Build(why) => why.clone(),
        }
    }

    /// The underlying reason given by lettre.
    pub fn cause(&self) -> (res: String)
        ensures
            res@ == match *self {
                MessageError::InvalidFrom(w) => w@,
                MessageError::InvalidTo(_, w) => w@,
                MessageError::InvalidCc(_, w) => w@,
                MessageError::InvalidBcc(_, w) => w@,
                MessageError::InvalidReplyTo(w) => w@,
                MessageError::Build(w) => w@,
            },
    {
        match self {
            MessageError::InvalidFrom(w) => w.clone(),
            MessageError::InvalidTo(_, w) => w.clone(),
            MessageError::InvalidCc(_, w) => w.clone(),
            MessageError::InvalidBcc(_, w) => w.clone(),
            MessageError::InvalidReplyTo(w) => w.clone(),
            MessageError::Build(w) => w.clone(),
        }
    }
}

/// What the body of the message for `p` holds, layout by layout: the text
/// body alone; or the text body then the HTML as alternatives; or, with
/// attachments, those alternatives (the text alone without HTML) followed by
/// one `application/octet-stream` part per attachment, in order. The text
/// body is always there.
pub proof fn lemma_body_parts(p: SendParams, atts: Seq<(String, Vec<u8>)>)
    ensures
        atts.len() == 0 && p.html is None ==> body_for(p, atts) == BodyView::Text(p.body@),
        atts.len() == 0 && p.html is Some ==> body_for(p, atts) == BodyView::Multi(
            MultiKind::Alternative,
            seq![PartView::Plain(p.body@), PartView::Html(p.html->0@)],
        ),
        atts.len() > 0 ==> (body_for(p, atts) matches BodyView::Multi(kind, parts) && {
            &&& kind == MultiKind::Mixed
            &&& parts.len() == atts.len() + 1
            &&& parts[0] == PartView::Nested(
                MultiKind::Alternative,
                match p.html {
                    Some(h) => seq![PartView::Plain(p.body@), PartView::Html(h@)],
                    None => seq![PartView::Plain(p.body@)],
                },
            )
            &&& forall|i: int|
                0 <= i < atts.len() ==> #[trigger] parts[i + 1] == PartView::Attached(
                    atts[i].0@,
                    atts[i].1@,
                    "application/octet-stream"@,
                )
        }),
{
    if atts.len() > 0 {
        let parts = seq![PartView::Nested(MultiKind::Alternative, text_parts(p))] + attachment_parts(atts);
        assert forall|i: int| 0 <= i < atts.len() implies #[trigger] parts[i + 1] == PartView::Attached(
            atts[i].0@,
            atts[i].1@,
            "application/octet-stream"@,
        ) by {
            assert(parts[i + 1] == attachment_parts(atts)[i]);
        }
    }
}

/// What the builder is handed for `p`: one sender `NAME <ADDRESS>`, the
/// subject, each `To`, `Cc` and `Bcc` address in its own list in the order
/// given, the reply address when there is one.
pub proof fn lemma_draft_fields(p: SendParams)
    ensures
        draft_for(p).from == seq![p.from_name@ + " <"@ + p.from@ + ">"@],
        draft_for(p).subject == Some(p.subject@),
        draft_for(p).to.len() == p.to@.len(),
        draft_for(p).cc.len() == p.cc@.len(),
        draft_for(p).bcc.len() == p.bcc@.len(),
        forall|i: int| 0 <= i < p.to@.len() ==> #[trigger] draft_for(p).to[i] == p.to@[i]@,
        forall|i: int| 0 <= i < p.cc@.len() ==> #[trigger] draft_for(p).cc[i] == p.cc@[i]@,
        forall|i: int| 0 <= i < p.bcc@.len() ==> #[trigger] draft_for(p).bcc[i] == p.bcc@[i]@,
        p.reply_to is None ==> draft_for(p).reply_to.len() == 0,
        p.reply_to matches Some(r) ==> draft_for(p).reply_to == seq![r@],
{
}

} // verus!
