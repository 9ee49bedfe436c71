use futures::sync::oneshot::Sender;
use vstd::prelude::*;

use crate::command::{
    contains_nul, encode_key, has_nul, key_has_nul, key_of, native_timeout, timeout_field,
    Command, CommandView, EncodeError, StoreOperation,
};
use crate::options::{
    GetOptions, InsertOptions, RemoveOptions, ReplaceOptions, RequestOptions, UpsertOptions,
};
use crate::result::{GetResult, MutationResult};

verus! {

/// The sending half of a one-shot channel of futures 0.1, through which the
/// outcome of a request is delivered once the native library completes it.
#[verifier::external_type_specification]
#[verifier::external_body]
#[verifier::reject_recursive_types(T)]
pub struct ExSender<T>(Sender<T>);

/// The completion channel of a request, handed over beside its command so
/// that it can travel through the native library as the request's cookie.
#[derive(Debug)]
pub enum Completion {
    Get(Sender<Option<GetResult>>),
    Mutation(Sender<MutationResult>),
}

/// The timeout in milliseconds that optional options give.
pub open spec fn options_timeout(options: Option<RequestOptions>) -> Option<u128> {
    match options {
        Some(o) => o.spec_timeout(),
        None => None,
    }
}

/// Why a request with the document id `id` and the content `content` (if it
/// carries one) cannot be encoded; `None` where it can. The id is looked at
/// first.
pub open spec fn encoding_error_of(id: Seq<char>, content: Option<Seq<u8>>) -> Option<
    EncodeError,
> {
    if has_nul(key_of(id)) {
        Some(EncodeError::KeyContainsNul)
    } else {
        match content {
            Some(c) => if has_nul(c) {
                Some(EncodeError::ValueContainsNul)
            } else {
                None
            },
            None => None,
        }
    }
}

fn options_timeout_ms(options: &Option<RequestOptions>) -> (r: Option<u128>)
    ensures
        r == options_timeout(*options),
{
    match options {
        Some(o) => o.timeout_ms(),
        None => None,
    }
}

/// A request that can be turned into a native command and its completion
/// channel.
pub trait InstanceRequest: Sized {
    /// Why this request cannot be encoded, if it cannot.
    spec fn encoding_error(&self) -> Option<EncodeError>;

    /// The command that this request encodes to.
    spec fn spec_command(&self) -> CommandView;

    /// The completion channel that this request hands on.
    spec fn spec_completion(&self) -> Completion;

    /// Tells whether this request can be encoded, and if not, why.
    fn check(&self) -> (r: Option<EncodeError>)
        ensures
            r == self.encoding_error(),
    ;

    /// Consumes the request into its native command and its completion
    /// channel.
    fn encode(self) -> (r: (Command, Completion))
        requires
            self.encoding_error() is None,
        ensures
            r.0@ == self.spec_command(),
            r.1 == self.spec_completion(),
    ;
}

/// A request to read the document `id`.
#[derive(Debug)]
pub struct GetRequest {
    sender: Sender<Option<GetResult>>,
    id: String,
    options: Option<GetOptions>,
}

impl GetRequest {
    pub closed spec fn spec_sender(&self) -> Sender<Option<GetResult>> {
        self.sender
    }

    pub closed spec fn spec_id(&self) -> Seq<char> {
        self.id@
    }

    pub closed spec fn spec_timeout(&self) -> Option<u128> {
        options_timeout(self.options)
    }

    pub fn new(sender: Sender<Option<GetResult>>, id: String, options: Option<GetOptions>) -> (r:
        Self)
        ensures
            r.spec_sender() == sender,
            r.spec_id() == id@,
            r.spec_timeout() == options_timeout(options),
    {
        GetRequest { sender, id, options }
    }
}

impl InstanceRequest for GetRequest {
    open spec fn encoding_error(&self) -> Option<EncodeError> {
        encoding_error_of(self.spec_id(), None)
    }

    open spec fn spec_command(&self) -> CommandView {
        CommandView::Get { key: key_of(self.spec_id()), timeout: timeout_field(self.spec_timeout()) }
    }

    open spec fn spec_completion(&self) -> Completion {
        Completion::Get(self.spec_sender())
    }

    fn check(&self) -> (r: Option<EncodeError>) {
        if key_has_nul(&self.id) {
            Some(EncodeError::KeyContainsNul)
        } else {
            None
        }
    }

    fn encode(self) -> (r: (Command, Completion)) {
        let key = encode_key(&self.id);
        let timeout = native_timeout(options_timeout_ms(&self.options));
        (Command::Get { key, timeout }, Completion::Get(self.sender))
    }
}

/// The store command that writes `content` under the key of `id`.
pub open spec fn store_command(
    operation: StoreOperation,
    id: Seq<char>,
    content: Seq<u8>,
    flags: u32,
    timeout: Option<u128>,
) -> CommandView {
    CommandView::Store {
        operation,
        key: key_of(id),
        flags,
        value: content,
        timeout: timeout_field(timeout),
    }
}

fn check_store(id: &String, content: &Vec<u8>) -> (r: Option<EncodeError>)
    ensures
        r == encoding_error_of(id@, Some(content@)),
{
    if key_has_nul(id) {
        Some(EncodeError::KeyContainsNul)
    } else if contains_nul(content.as_slice()) {
        Some(EncodeError::ValueContainsNul)
    } else {
        None
    }
}

fn encode_store(
    operation: StoreOperation,
    id: &String,
    content: Vec<u8>,
    flags: u32,
    options: &Option<RequestOptions>,
) -> (r: Command)
    ensures
        r@ == store_command(operation, id@, content@, flags, options_timeout(*options)),
{
    let key = encode_key(id);
    let timeout = native_timeout(options_timeout_ms(options));
    Command::Store { operation, key, flags, value: content, timeout }
}

/// A request to write the document `id`, whether or not it exists.
#[derive(Debug)]
pub struct UpsertRequest {
    sender: Sender<MutationResult>,
    id: String,
    content: Vec<u8>,
    flags: u32,
    options: Option<UpsertOptions>,
}

impl UpsertRequest {
    pub closed spec fn spec_sender(&self) -> Sender<MutationResult> {
        self.sender
    }

    pub closed spec fn spec_id(&self) -> Seq<char> {
        self.id@
    }

    pub closed spec fn spec_content(&self) -> Seq<u8> {
        self.content@
    }

    pub closed spec fn spec_flags(&self) -> u32 {
        self.flags
    }

    pub closed spec fn spec_timeout(&self) -> Option<u128> {
        options_timeout(self.options)
    }

    pub fn new(
        sender: Sender<MutationResult>,
        id: String,
        content: Vec<u8>,
        flags: u32,
        options: Option<UpsertOptions>,
    ) -> (r: Self)
        ensures
            r.spec_sender() == sender,
            r.spec_id() == id@,
            r.spec_content() == content@,
            r.spec_flags() == flags,
            r.spec_timeout() == options_timeout(options),
    {
        UpsertRequest { sender, id, content, flags, options }
    }
}

impl InstanceRequest for UpsertRequest {
    open spec fn encoding_error(&self) -> Option<EncodeError> {
        encoding_error_of(self.spec_id(), Some(self.spec_content()))
    }

    open spec fn spec_command(&self) -> CommandView {
        store_command(
            StoreOperation::Upsert,
            self.spec_id(),
            self.spec_content(),
            self.spec_flags(),
            self.spec_timeout(),
        )
    }

    open spec fn spec_completion(&self) -> Completion {
        Completion::Mutation(self.spec_sender())
    }

    fn check(&self) -> (r: Option<EncodeError>) {
        check_store(&self.id, &self.content)
    }

    fn encode(self) -> (r: (Command, Completion)) {
        let command = encode_store(
            StoreOperation::Upsert,
            &self.id,
            self.content,
            self.flags,
            &self.options,
        );
        (command, Completion::Mutation(self.sender))
    }
}

/// A request to write the document `id` where it does not exist yet.
#[derive(Debug)]
pub struct InsertRequest {
    sender: Sender<MutationResult>,
    id: String,
    content: Vec<u8>,
    flags: u32,
    options: Option<InsertOptions>,
}

impl InsertRequest {
    pub closed spec fn spec_sender(&self) -> Sender<MutationResult> {
        self.sender
    }

    pub closed spec fn spec_id(&self) -> Seq<char> {
        self.id@
    }

    pub closed spec fn spec_content(&self) -> Seq<u8> {
        self.content@
    }

    pub closed spec fn spec_flags(&self) -> u32 {
        self.flags
    }

    pub closed spec fn spec_timeout(&self) -> Option<u128> {
        options_timeout(self.options)
    }

    pub fn new(
        sender: Sender<MutationResult>,
        id: String,
        content: Vec<u8>,
        flags: u32,
        options: Option<InsertOptions>,
    ) -> (r: Self)
        ensures
            r.spec_sender() == sender,
            r.spec_id() == id@,
            r.spec_content() == content@,
            r.spec_flags() == flags,
            r.spec_timeout() == options_timeout(options),
    {
        InsertRequest { sender, id, content, flags, options }
    }
}

impl InstanceRequest for InsertRequest {
    open spec fn encoding_error(&self) -> Option<EncodeError> {
        encoding_error_of(self.spec_id(), Some(self.spec_content()))
    }

    open spec fn spec_command(&self) -> CommandView {
        store_command(
            StoreOperation::Insert,
            self.spec_id(),
            self.spec_content(),
            self.spec_flags(),
            self.spec_timeout(),
        )
    }

    open spec fn spec_completion(&self) -> Completion {
        Completion::Mutation(self.spec_sender())
    }

    fn check(&self) -> (r: Option<EncodeError>) {
        check_store(&self.id, &self.content)
    }

    fn encode(self) -> (r: (Command, Completion)) {
        let command = encode_store(
            StoreOperation::Insert,
            &self.id,
            self.content,
            self.flags,
            &self.options,
        );
        (command, Completion::Mutation(self.sender))
    }
}

/// A request to write the document `id` where it exists already.
#[derive(Debug)]
pub struct ReplaceRequest {
    sender: Sender<MutationResult>,
    id: String,
    content: Vec<u8>,
    flags: u32,
    options: Option<ReplaceOptions>,
}

impl ReplaceRequest {
    pub closed spec fn spec_sender(&self) -> Sender<MutationResult> {
        self.sender
    }

    pub closed spec fn spec_id(&self) -> Seq<char> {
        self.id@
    }

    pub closed spec fn spec_content(&self) -> Seq<u8> {
        self.content@
    }

    pub closed spec fn spec_flags(&self) -> u32 {
        self.flags
    }

    pub closed spec fn spec_timeout(&self) -> Option<u128> {
        options_timeout(self.options)
    }

    pub fn new(
        sender: Sender<MutationResult>,
        id: String,
        content: Vec<u8>,
        flags: u32,
        options: Option<ReplaceOptions>,
    ) -> (r: Self)
        ensures
            r.spec_sender() == sender,
            r.spec_id() == id@,
            r.spec_content() == content@,
            r.spec_flags() == flags,
            r.spec_timeout() == options_timeout(options),
    {
        ReplaceRequest { sender, id, content, flags, options }
    }
}

impl InstanceRequest for ReplaceRequest {
    open spec fn encoding_error(&self) -> Option<EncodeError> {
        encoding_error_of(self.spec_id(), Some(self.spec_content()))
    }

    open spec fn spec_command(&self) -> CommandView {
        store_command(
            StoreOperation::Replace,
            self.spec_id(),
            self.spec_content(),
            self.spec_flags(),
            self.spec_timeout(),
        )
    }

    open spec fn spec_completion(&self) -> Completion {
        Completion::Mutation(self.spec_sender())
    }

    fn check(&self) -> (r: Option<EncodeError>) {
        check_store(&self.id, &self.content)
    }

    fn encode(self) -> (r: (Command, Completion)) {
        let command = encode_store(
            StoreOperation::Replace,
            &self.id,
            self.content,
            self.flags,
            &self.options,
        );
        (command, Completion::Mutation(self.sender))
    }
}

/// A request to remove the document `id`.
#[derive(Debug)]
pub struct RemoveRequest {
    sender: Sender<MutationResult>,
    id: String,
    options: Option<RemoveOptions>,
}

impl RemoveRequest {
    pub closed spec fn spec_sender(&self) -> Sender<MutationResult> {
        self.sender
    }

    pub closed spec fn spec_id(&self) -> Seq<char> {
        self.id@
    }

    pub closed spec fn spec_timeout(&self) -> Option<u128> {
        options_timeout(self.options)
    }

    pub fn new(sender: Sender<MutationResult>, id: String, options: Option<RemoveOptions>) -> (r:
        Self)
        ensures
            r.spec_sender() == sender,
            r.spec_id() == id@,
            r.spec_timeout() == options_timeout(options),
    {
        RemoveRequest { sender, id, options }
    }
}

impl InstanceRequest for RemoveRequest {
    open spec fn encoding_error(&self) -> Option<EncodeError> {
        encoding_error_of(self.spec_id(), None)
    }

    open spec fn spec_command(&self) -> CommandView {
        CommandView::Remove {
            key: key_of(self.spec_id()),
            timeout: timeout_field(self.spec_timeout()),
        }
    }

    open spec fn spec_completion(&self) -> Completion {
        Completion::Mutation(self.spec_sender())
    }

    fn check(&self) -> (r: Option<EncodeError>) {
        if key_has_nul(&self.id) {
            Some(EncodeError::KeyContainsNul)
        } else {
            None
        }
    }

    fn encode(self) -> (r: (Command, Completion)) {
        let key = encode_key(&self.id);
        let timeout = native_timeout(options_timeout_ms(&self.options));
        (Command::Remove { key, timeout }, Completion::Mutation(self.sender))
    }
}

} // verus!
