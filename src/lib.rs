//! Encoding of key-value operations (get, upsert, insert, replace, remove)
//! into the commands of the native client library, with the completion
//! channel of each request handed on beside the command.
mod command;
mod options;
mod request;
mod result;

pub use command::{
    contains_nul, encode_key, key_has_nul, native_timeout, Command, CommandView, EncodeError,
    StoreOperation,
};
pub use options::{
    GetOptions, InsertOptions, RemoveOptions, ReplaceOptions, RequestOptions, UpsertOptions,
};
pub use request::{
    Completion, GetRequest, InsertRequest, InstanceRequest, RemoveRequest, ReplaceRequest,
    UpsertRequest,
};
pub use result::{GetResult, MutationResult};
