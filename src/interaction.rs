use vstd::prelude::*;

verus! {

/// The numeric discriminant that selects the shape of an interaction response.
#[derive(Debug, Clone, Copy, PartialEq, Eq, Structural)]
pub enum InteractionResponseType {
    Pong,
    ChannelMessageWithSource,
    DeferredChannelMessageWithSource,
    DeferredMessageUpdate,
    UpdateMessage,
}

/// Wire value of each response type.
pub open spec fn type_code(t: InteractionResponseType) -> u64 {
    match t {
        InteractionResponseType::Pong => 1,
        InteractionResponseType::ChannelMessageWithSource => 4,
        InteractionResponseType::DeferredChannelMessageWithSource => 5,
        InteractionResponseType::DeferredMessageUpdate => 6,
        InteractionResponseType::UpdateMessage => 7,
    }
}

/// True when `v` is the wire value of some response type.
pub open spec fn is_type_code(v: u64) -> bool {
    v == 1 || v == 4 || v == 5 || v == 6 || v == 7
}

/// Why a response could not be read back from its wire fields.
#[derive(Debug, Clone, PartialEq, Eq, Structural)]
pub enum DecodeError {
    /// The `type` field is missing or is not an unsigned integer.
    TypeNotInteger,
    /// The `type` field holds a value that names no response type.
    UnknownType(u64),
    /// The response type is known but cannot be decoded yet.
    UpdateMessageUnsupported,
    /// The response type carries a `data` object that is missing.
    MissingData,
}

impl InteractionResponseType {
    /// The wire value of this response type.
    pub fn code(&self) -> (r: u64)
        ensures
            r == type_code(*self),
    {
        match self {
            InteractionResponseType::Pong => 1,
            InteractionResponseType::ChannelMessageWithSource => 4,
            InteractionResponseType::DeferredChannelMessageWithSource => 5,
            InteractionResponseType::DeferredMessageUpdate => 6,
            InteractionResponseType::UpdateMessage => 7,
        }
    }

    /// Reads a response type from its wire value.
    pub fn try_from(value: u64) -> (r: Result<InteractionResponseType, DecodeError>)
        ensures
            is_type_code(value) <==> r is Ok,
            r matches Ok(t) ==> type_code(t) == value,
            !is_type_code(value) ==> r == Err::<InteractionResponseType, DecodeError>(
                DecodeError::UnknownType(value),
            ),
    {
        match value {
            1 => Ok(InteractionResponseType::Pong),
            4 => Ok(InteractionResponseType::ChannelMessageWithSource),
            5 => Ok(InteractionResponseType::DeferredChannelMessageWithSource),
            6 => Ok(InteractionResponseType::DeferredMessageUpdate),
            7 => Ok(InteractionResponseType::UpdateMessage),
            _ => Err(DecodeError::UnknownType(value)),
        }
    }
}

/// The payload of a message sent in reply to a command.
#[derive(Debug, Clone, PartialEq, Eq)]
pub struct InteractionApplicationCommandCallbackData {
    pub tts: Option<bool>,
    pub content: Option<String>,
    pub flags: Option<u64>,
}

/// A response that carries nothing but its type.
#[derive(Debug, Clone)]
pub struct SimpleInteractionResponse {
    response_type: InteractionResponseType,
}

/// A response that carries a message.
#[derive(Debug, Clone)]
pub struct ApplicationCommandResponse {
    response_type: InteractionResponseType,
    data: InteractionApplicationCommandCallbackData,
}

/// A response that announces a message to come.
#[derive(Debug, Clone)]
pub struct DeferredApplicationCommandResponse {
    response_type: InteractionResponseType,
    data: DeferredApplicationCommandResponseData,
}

/// Message flags of a deferred response.
#[derive(Debug, Clone, Copy, PartialEq, Eq, Structural)]
pub struct DeferredApplicationCommandResponseData {
    pub flags: usize,
}

/// Flag value that makes a deferred reply visible to its invoker alone.
pub const EPHEMERAL_FLAG: usize = 64;

impl SimpleInteractionResponse {
    pub closed spec fn spec_type(&self) -> InteractionResponseType {
        self.response_type
    }

    pub fn response_type(&self) -> (r: InteractionResponseType)
        ensures
            r == self.spec_type(),
    {
        self.response_type
    }
}

impl ApplicationCommandResponse {
    pub closed spec fn spec_type(&self) -> InteractionResponseType {
        self.response_type
    }

    pub closed spec fn spec_data(&self) -> InteractionApplicationCommandCallbackData {
        self.data
    }

    pub fn response_type(&self) -> (r: InteractionResponseType)
        ensures
            r == self.spec_type(),
    {
        self.response_type
    }

    pub fn data(&self) -> (r: &InteractionApplicationCommandCallbackData)
        ensures
            *r == self.spec_data(),
    {
        &self.data
    }
}

impl DeferredApplicationCommandResponse {
    pub closed spec fn spec_type(&self) -> InteractionResponseType {
        self.response_type
    }

    pub closed spec fn spec_data(&self) -> DeferredApplicationCommandResponseData {
        self.data
    }

    pub fn response_type(&self) -> (r: InteractionResponseType)
        ensures
            r == self.spec_type(),
    {
        self.response_type
    }

    pub fn data(&self) -> (r: DeferredApplicationCommandResponseData)
        ensures
            r == self.spec_data(),
    {
        self.data
    }
}

/// A reply to an interaction: a closed union chosen by its type.
#[derive(Debug, Clone)]
pub enum InteractionResponse {
    PongResponse(SimpleInteractionResponse),
    ChannelMessageWithSource(ApplicationCommandResponse),
    DeferredChannelMessageWithSource(DeferredApplicationCommandResponse),
    DeferredMessageUpdate(SimpleInteractionResponse),
}

impl InteractionResponse {
    /// The response type that this value carries in its `type` field.
    pub open spec fn spec_type(&self) -> InteractionResponseType {
        match self {
            InteractionResponse::PongResponse(r) => r.spec_type(),
            InteractionResponse::ChannelMessageWithSource(r) => r.spec_type(),
            InteractionResponse::DeferredChannelMessageWithSource(r) => r.spec_type(),
            InteractionResponse::DeferredMessageUpdate(r) => r.spec_type(),
        }
    }

    /// The variant and the `type` field agree.
    pub open spec fn well_formed(&self) -> bool {
        match self {
            InteractionResponse::PongResponse(r) => r.spec_type()
                == InteractionResponseType::Pong,
            InteractionResponse::ChannelMessageWithSource(r) => r.spec_type()
                == InteractionResponseType::ChannelMessageWithSource,
            InteractionResponse::DeferredChannelMessageWithSource(r) => r.spec_type()
                == InteractionResponseType::DeferredChannelMessageWithSource,
            InteractionResponse::DeferredMessageUpdate(r) => r.spec_type()
                == InteractionResponseType::DeferredMessageUpdate,
        }
    }

    /// Acknowledges a ping.
    pub fn new_pong() -> (r: InteractionResponse)
        ensures
            r is PongResponse,
            r.well_formed(),
    {
        InteractionResponse::PongResponse(
            SimpleInteractionResponse { response_type: InteractionResponseType::Pong },
        )
    }

    /// Replies with a message.
    pub fn new_channel_message_with_source(
        data: InteractionApplicationCommandCallbackData,
    ) -> (r: InteractionResponse)
        ensures
            r.well_formed(),
            r matches InteractionResponse::ChannelMessageWithSource(m) && m.spec_data() == data,
    {
        InteractionResponse::ChannelMessageWithSource(
            ApplicationCommandResponse {
                response_type: InteractionResponseType::ChannelMessageWithSource,
                data,
            },
        )
    }

    /// Announces a message to come, visible to the invoker alone.
    pub fn new_deferred_message_with_source() -> (r: InteractionResponse)
        ensures
            r.well_formed(),
            r matches InteractionResponse::DeferredChannelMessageWithSource(m)
                && m.spec_data().flags == EPHEMERAL_FLAG,
    {
        InteractionResponse::DeferredChannelMessageWithSource(
            DeferredApplicationCommandResponse {
                response_type: InteractionResponseType::DeferredChannelMessageWithSource,
                data: DeferredApplicationCommandResponseData { flags: EPHEMERAL_FLAG },
            },
        )
    }

    /// Acknowledges a component interaction; the message is updated later.
    pub fn new_deferred_message_update() -> (r: InteractionResponse)
        ensures
            r is DeferredMessageUpdate,
            r.well_formed(),
    {
        InteractionResponse::DeferredMessageUpdate(
            SimpleInteractionResponse { response_type: InteractionResponseType::DeferredMessageUpdate },
        )
    }

    /// The wire value of this response's `type` field.
    pub fn type_code(&self) -> (r: u64)
        ensures
            r == type_code(self.spec_type()),
    {
        match self {
            InteractionResponse::PongResponse(r) => r.response_type().code(),
            InteractionResponse::ChannelMessageWithSource(r) => r.response_type().code(),
            InteractionResponse::DeferredChannelMessageWithSource(r) => r.response_type().code(),
            InteractionResponse::DeferredMessageUpdate(r) => r.response_type().code(),
        }
    }

    /// Decodes a response from its wire fields: the `type` discriminant is read
    /// first and selects which of the other fields the variant needs.
    /// `message` is the `data` object of a message reply, `deferred_flags` the
    /// `data.flags` field of a deferred reply; each is `None` when absent.
    pub fn from_parts(
        response_type: Option<u64>,
        message: Option<InteractionApplicationCommandCallbackData>,
        deferred_flags: Option<usize>,
    ) -> (r: Result<InteractionResponse, DecodeError>)
        ensures
            r matches Ok(v) ==> v.well_formed() && response_type == Some(type_code(v.spec_type())),
            r == decoded(response_type, message, deferred_flags),
            response_type == Some(1u64) ==> r matches Ok(InteractionResponse::PongResponse(_)),
            response_type == Some(6u64) ==> r matches Ok(InteractionResponse::DeferredMessageUpdate(_)),
            response_type == Some(4u64) && message is Some ==> (r matches Ok(
                InteractionResponse::ChannelMessageWithSource(m),
            ) && m.spec_data() == message->Some_0),
            response_type == Some(5u64) && deferred_flags is Some ==> (r matches Ok(
                InteractionResponse::DeferredChannelMessageWithSource(d),
            ) && d.spec_data().flags == deferred_flags->Some_0),
    {
        let code = match response_type {
            Some(c) => c,
            None => return Err(DecodeError::TypeNotInteger),
        };
        let t = match InteractionResponseType::try_from(code) {
            Ok(t) => t,
            Err(e) => return Err(e),
        };
        match t {
            InteractionResponseType::Pong => Ok(InteractionResponse::new_pong()),
            InteractionResponseType::ChannelMessageWithSource => match message {
                Some(data) => Ok(InteractionResponse::new_channel_message_with_source(data)),
                None => Err(DecodeError::MissingData),
            },
            InteractionResponseType::DeferredChannelMessageWithSource => match deferred_flags {
                Some(flags) => Ok(
                    InteractionResponse::DeferredChannelMessageWithSource(
                        DeferredApplicationCommandResponse {
                            response_type: InteractionResponseType::DeferredChannelMessageWithSource,
                            data: DeferredApplicationCommandResponseData { flags },
                        },
                    ),
                ),
                None => Err(DecodeError::MissingData),
            },
            InteractionResponseType::DeferredMessageUpdate => Ok(
                InteractionResponse::new_deferred_message_update(),
            ),
            InteractionResponseType::UpdateMessage => Err(DecodeError::UpdateMessageUnsupported),
        }
    }
}

/// What a response decodes to, by variant, from its wire fields.
pub open spec fn decoded(
    response_type: Option<u64>,
    message: Option<InteractionApplicationCommandCallbackData>,
    deferred_flags: Option<usize>,
) -> Result<InteractionResponse, DecodeError> {
    match response_type {
        None => Err(DecodeError::TypeNotInteger),
        Some(c) => if c == 1 {
            Ok(InteractionResponse::PongResponse(simple_of(InteractionResponseType::Pong)))
        } else if c == 4 {
            match message {
                Some(data) => Ok(InteractionResponse::ChannelMessageWithSource(message_of(data))),
                None => Err(DecodeError::MissingData),
            }
        } else if c == 5 {
            match deferred_flags {
                Some(flags) => Ok(InteractionResponse::DeferredChannelMessageWithSource(deferred_of(flags))),
                None => Err(DecodeError::MissingData),
            }
        } else if c == 6 {
            Ok(InteractionResponse::DeferredMessageUpdate(simple_of(InteractionResponseType::DeferredMessageUpdate)))
        } else if c == 7 {
            Err(DecodeError::UpdateMessageUnsupported)
        } else {
            Err(DecodeError::UnknownType(c))
        },
    }
}

/// The `data` object that a response carries when it is a message reply.
pub open spec fn message_part(v: InteractionResponse) -> Option<InteractionApplicationCommandCallbackData> {
    match v {
        InteractionResponse::ChannelMessageWithSource(m) => Some(m.spec_data()),
        _ => None,
    }
}

/// The `data.flags` field that a response carries when it is a deferred reply.
pub open spec fn flags_part(v: InteractionResponse) -> Option<usize> {
    match v {
        InteractionResponse::DeferredChannelMessageWithSource(d) => Some(d.spec_data().flags),
        _ => None,
    }
}

/// Decoding the wire fields of a well-formed response gives that response
/// back: its type, its message data and its flags are kept.
pub proof fn lemma_decode_round_trip(v: InteractionResponse)
    requires
        v.well_formed(),
    ensures
        decoded(Some(type_code(v.spec_type())), message_part(v), flags_part(v)) == Ok::<
            InteractionResponse,
            DecodeError,
        >(v),
{
}

/// The bare response of type `t`.
pub closed spec fn simple_of(t: InteractionResponseType) -> SimpleInteractionResponse {
    SimpleInteractionResponse { response_type: t }
}

/// The message reply that carries `data`.
pub closed spec fn message_of(data: InteractionApplicationCommandCallbackData) -> ApplicationCommandResponse {
    ApplicationCommandResponse { response_type: InteractionResponseType::ChannelMessageWithSource, data }
}

/// The deferred reply with message flags `flags`.
pub closed spec fn deferred_of(flags: usize) -> DeferredApplicationCommandResponse {
    DeferredApplicationCommandResponse {
        response_type: InteractionResponseType::DeferredChannelMessageWithSource,
        data: DeferredApplicationCommandResponseData { flags },
    }
}

} // verus!
