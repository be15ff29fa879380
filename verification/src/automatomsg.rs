//! The automato message layer under one roof: every name of the payload
//! model, the codec, the structured projection and the frame layer.

pub use crate::codes::{FieldFormat, PayloadType, ResultCode};
pub use crate::frame::{
    bytes_taken, decode_error_kind, frame_payload_of, is_bare, leader_offset, read_frame,
    read_message, write_message,
    ReadState, ReadStep, LEADER, TRAILER,
};
pub use crate::hexmem::setup_writemem_hex;
pub use crate::payload::{
    payload_size, AnalogPinval, Message, Payload, PayloadData, Pinmode, Pinval, ReadField,
    ReadFieldReply, Readmem, ReadmemReplyUnion, RemoteInfo, WritememUnion, FIELD_NAME_LEN,
    MAX_READMEM, MAX_WRITEMEM, RH_RF95_MAX_MESSAGE_LEN,
};
pub use crate::setup::{
    padded_copy, setup_ack, setup_fail, setup_pinmode, setup_readanalog, setup_readanalogreply,
    setup_readfield, setup_readfieldreply, setup_readhumidity, setup_readhumidityreply,
    setup_readinfo, setup_readinforeply, setup_readmem, setup_readmemreply, setup_readpin,
    setup_readpinreply, setup_readtemperature, setup_readtemperaturereply, setup_writemem,
    setup_writepin,
};
pub use crate::structured::{PayloadEnum, PayloadSerde, ReadmemReply, Writemem};
pub use crate::transaction::{
    fail_code, is_timeout, layer_error, port_failure, remote_result, transact, Action, Event,
    Exchange, TransactState, Transaction,
};
pub use crate::wire::{decode, encode, Msgbuf};
