//! The request pipeline: the ordered stages that turn a raw request into
//! validated values, call the handler, and turn its result into a response.
//!
//! The pipeline decides; the transport acts. Each step takes the outcome of
//! the action that the pipeline asked for last, and gives the next action.
//! The stages run in a fixed order: context, path parameters, query, payload,
//! handler, encoding. A failure ends the pipeline with the response that
//! reports it; no later stage is tried. A void slot is skipped: nothing is
//! parsed or validated for it, and the handler gets the void sentinel.

use vstd::prelude::*;
use vstd::string::*;
use crate::endpoint::{
    is_content_type_json, spec_is_content_type_json, BodyReader, Endpoint, ReadBodyErrorView,
    RequestHead,
};
use crate::void::Void;
use crate::error::{ApiError, ApiErrorKind};
use crate::response::{error_response, success_response, to_response, Response, ResponseView};
use crate::text::join;

verus! {

/// What the pipeline needs to know of an endpoint.
#[derive(Debug, Clone, Copy)]
pub struct PipelineConfig {
    pub params_void: bool,
    pub query_void: bool,
    pub payload_void: bool,
    pub max_payload_size: usize,
}

/// The configuration that an endpoint's declaration gives: a slot is void
/// exactly where its type is the void sentinel.
pub open spec fn spec_config_of<E: Endpoint>(endpoint: &E) -> PipelineConfig {
    PipelineConfig {
        params_void: E::Params::spec_is_void(),
        query_void: E::Query::spec_is_void(),
        payload_void: E::Payload::spec_is_void(),
        max_payload_size: endpoint.spec_max_payload_size(),
    }
}

/// The configuration that an endpoint's declaration gives.
pub fn config_of<E: Endpoint>(endpoint: &E) -> (r: PipelineConfig)
    ensures
        r == spec_config_of(endpoint),
{
    PipelineConfig {
        params_void: E::Params::is_void(),
        query_void: E::Query::is_void(),
        payload_void: E::Payload::is_void(),
        max_payload_size: endpoint.max_payload_size(),
    }
}

/// Where the pipeline stands: the action it asked for last, whose outcome
/// it waits for.
#[derive(Debug, Clone, Copy, PartialEq, Eq, Structural)]
pub enum Stage {
    Context,
    ParamsParse,
    ParamsValidate,
    QueryParse,
    QueryValidate,
    PayloadRead,
    PayloadParse,
    PayloadValidate,
    Invoke,
    Serialize,
    Done,
}

/// Where the value of a slot comes from.
#[derive(Debug, Clone, Copy, PartialEq, Eq, Structural)]
pub enum Source {
    /// The slot is void: the handler gets the sentinel.
    Void,
    /// The slot was parsed from the request and validated.
    Parsed,
}

/// The outcome of an action.
#[derive(Debug)]
pub enum Event {
    ContextDerived,
    ContextFailed(ApiError),
    Parsed,
    ParseFailed(String),
    Validated,
    ValidationFailed(String),
    Chunk(Vec<u8>),
    EndOfBody,
    BodyFailed(String),
    Invoked,
    InvokeFailed(ApiError),
    Serialized(Vec<u8>),
    SerializeFailed,
}

/// What the transport is to do next.
#[derive(Debug)]
pub enum Action {
    DeriveContext,
    ParseParams,
    ValidateParams,
    ParseQuery,
    ValidateQuery,
    ReadChunk,
    ParsePayload(Vec<u8>),
    ValidatePayload,
    Invoke { params: Source, query: Source, payload: Source },
    Serialize,
    Respond(Response),
}

/// The mathematical value of an [`Action`].
pub enum ActionView {
    DeriveContext,
    ParseParams,
    ValidateParams,
    ParseQuery,
    ValidateQuery,
    ReadChunk,
    ParsePayload(Seq<u8>),
    ValidatePayload,
    Invoke { params: Source, query: Source, payload: Source },
    Serialize,
    Respond(ResponseView),
}

impl View for Action {
    type V = ActionView;

    open spec fn view(&self) -> ActionView {
        match self {
            Action::DeriveContext => ActionView::DeriveContext,
            Action::ParseParams => ActionView::ParseParams,
            Action::ValidateParams => ActionView::ValidateParams,
            Action::ParseQuery => ActionView::ParseQuery,
            Action::ValidateQuery => ActionView::ValidateQuery,
            Action::ReadChunk => ActionView::ReadChunk,
            Action::ParsePayload(bytes) => ActionView::ParsePayload(bytes@),
            Action::ValidatePayload => ActionView::ValidatePayload,
            Action::Invoke { params, query, payload } => ActionView::Invoke {
                params: *params,
                query: *query,
                payload: *payload,
            },
            Action::Serialize => ActionView::Serialize,
            Action::Respond(response) => ActionView::Respond(response@),
        }
    }
}

/// A step's result: the new stage, the bytes of the body in hand, and the
/// next action.
pub struct StepView {
    pub stage: Stage,
    pub read: Seq<u8>,
    pub action: ActionView,
}

/// The source of a slot.
pub open spec fn source(void: bool) -> Source {
    if void {
        Source::Void
    } else {
        Source::Parsed
    }
}

/// The end of the pipeline with a failure caused by the request.
pub open spec fn refuse(read: Seq<u8>, kind: ApiErrorKind, message: Seq<char>) -> StepView {
    StepView {
        stage: Stage::Done,
        read,
        action: ActionView::Respond(error_response(400, kind, message)),
    }
}

/// The end of the pipeline with a failure that the business logic reports.
pub open spec fn fail_with(read: Seq<u8>, e: ApiError) -> StepView {
    StepView {
        stage: Stage::Done,
        read,
        action: ActionView::Respond(error_response(e.status, e.kind, e.message@)),
    }
}

/// The handler stage: every input that is not void has been parsed.
pub open spec fn enter_invoke(c: PipelineConfig, read: Seq<u8>) -> StepView {
    StepView {
        stage: Stage::Invoke,
        read,
        action: ActionView::Invoke {
            params: source(c.params_void),
            query: source(c.query_void),
            payload: source(c.payload_void),
        },
    }
}

/// The payload stage: skipped for a void payload; refused where the content
/// type is not JSON, before any byte of the body is read; else the body is
/// read.
pub open spec fn enter_payload(c: PipelineConfig, json: bool, read: Seq<u8>) -> StepView {
    if c.payload_void {
        enter_invoke(c, read)
    } else if !json {
        refuse(
            read,
            ApiErrorKind::PayloadContentType,
            "content-type of request must be application/json"@,
        )
    } else {
        StepView { stage: Stage::PayloadRead, read, action: ActionView::ReadChunk }
    }
}

/// The query stage: skipped for a void query.
pub open spec fn enter_query(c: PipelineConfig, json: bool, read: Seq<u8>) -> StepView {
    if c.query_void {
        enter_payload(c, json, read)
    } else {
        StepView { stage: Stage::QueryParse, read, action: ActionView::ParseQuery }
    }
}

/// The path parameter stage: skipped for void parameters.
pub open spec fn enter_params(c: PipelineConfig, json: bool, read: Seq<u8>) -> StepView {
    if c.params_void {
        enter_query(c, json, read)
    } else {
        StepView { stage: Stage::ParamsParse, read, action: ActionView::ParseParams }
    }
}

/// Whether a stage can be reached with the configuration: no stage of a void
/// slot can.
pub open spec fn stage_fits(c: PipelineConfig, stage: Stage) -> bool {
    match stage {
        Stage::ParamsParse | Stage::ParamsValidate => !c.params_void,
        Stage::QueryParse | Stage::QueryValidate => !c.query_void,
        Stage::PayloadRead | Stage::PayloadParse | Stage::PayloadValidate => !c.payload_void,
        _ => true,
    }
}

/// Whether an event is an outcome of the action that a stage waits for.
pub open spec fn accepts(stage: Stage, event: Event) -> bool {
    match stage {
        Stage::Context => event is ContextDerived || event is ContextFailed,
        Stage::ParamsParse | Stage::QueryParse | Stage::PayloadParse => event is Parsed
            || event is ParseFailed,
        Stage::ParamsValidate | Stage::QueryValidate | Stage::PayloadValidate => event is Validated
            || event is ValidationFailed,
        Stage::PayloadRead => event is Chunk || event is EndOfBody || event is BodyFailed,
        Stage::Invoke => event is Invoked || event is InvokeFailed,
        Stage::Serialize => event is Serialized || event is SerializeFailed,
        Stage::Done => false,
    }
}

/// The step that the pipeline takes in a stage on an event that the stage
/// accepts. (`Done` accepts none and is left as it is.)
pub open spec fn spec_step(
    c: PipelineConfig,
    json: bool,
    stage: Stage,
    read: Seq<u8>,
    event: Event,
) -> StepView {
    match stage {
        Stage::Context => match event {
            Event::ContextFailed(e) => fail_with(read, e),
            _ => enter_params(c, json, read),
        },
        Stage::ParamsParse => match event {
            Event::ParseFailed(detail) => refuse(
                read,
                ApiErrorKind::InvalidParamsParse,
                "error parsing path parameters: "@ + detail@,
            ),
            _ => StepView { stage: Stage::ParamsValidate, read, action: ActionView::ValidateParams },
        },
        Stage::ParamsValidate => match event {
            Event::ValidationFailed(detail) => refuse(
                read,
                ApiErrorKind::InvalidParamsValidate,
                "error validating path parameters: "@ + detail@,
            ),
            _ => enter_query(c, json, read),
        },
        Stage::QueryParse => match event {
            Event::ParseFailed(detail) => refuse(
                read,
                ApiErrorKind::InvalidQueryParse,
                "error parsing query parameters: "@ + detail@,
            ),
            _ => StepView { stage: Stage::QueryValidate, read, action: ActionView::ValidateQuery },
        },
        Stage::QueryValidate => match event {
            Event::ValidationFailed(detail) => refuse(
                read,
                ApiErrorKind::InvalidQueryValidate,
                "error validating query parameters: "@ + detail@,
            ),
            _ => enter_payload(c, json, read),
        },
        Stage::PayloadRead => match event {
            Event::Chunk(bytes) => if read.len() + bytes@.len() > c.max_payload_size {
                refuse(
                    read,
                    ApiErrorKind::PayloadRead,
                    "error reading payload: "@ + ReadBodyErrorView::MaxSizeExceeded(
                        c.max_payload_size,
                    ).message(),
                )
            } else {
                StepView { stage: Stage::PayloadRead, read: read + bytes@, action: ActionView::ReadChunk }
            },
            Event::BodyFailed(detail) => refuse(
                read,
                ApiErrorKind::PayloadRead,
                "error reading payload: "@ + detail@,
            ),
            _ => StepView {
                stage: Stage::PayloadParse,
                read: Seq::empty(),
                action: ActionView::ParsePayload(read),
            },
        },
        Stage::PayloadParse => match event {
            Event::ParseFailed(detail) => refuse(
                read,
                ApiErrorKind::InvalidPayloadParse,
                "error parsing payload: "@ + detail@,
            ),
            _ => StepView {
                stage: Stage::PayloadValidate,
                read,
                action: ActionView::ValidatePayload,
            },
        },
        Stage::PayloadValidate => match event {
            Event::ValidationFailed(detail) => refuse(
                read,
                ApiErrorKind::InvalidPayloadValidate,
                "error validating payload: "@ + detail@,
            ),
            _ => enter_invoke(c, read),
        },
        Stage::Invoke => match event {
            Event::InvokeFailed(e) => fail_with(read, e),
            _ => StepView { stage: Stage::Serialize, read, action: ActionView::Serialize },
        },
        Stage::Serialize => match event {
            Event::Serialized(bytes) => StepView {
                stage: Stage::Done,
                read,
                action: ActionView::Respond(success_response(bytes@)),
            },
            _ => StepView {
                stage: Stage::Done,
                read,
                action: ActionView::Respond(
                    error_response(500, ApiErrorKind::Internal, "error serializing response"@),
                ),
            },
        },
        // No event is accepted in `Done`.
        Stage::Done => StepView { stage: Stage::Done, read, action: ActionView::Serialize },
    }
}

/// A request on its way through the stages.
pub struct Pipeline {
    config: PipelineConfig,
    json: bool,
    stage: Stage,
    reader: BodyReader,
}

impl Pipeline {
    /// The endpoint's configuration.
    pub closed spec fn config(&self) -> PipelineConfig {
        self.config
    }

    /// Whether the request declares a JSON payload.
    pub closed spec fn json(&self) -> bool {
        self.json
    }

    /// The stage that the pipeline stands in.
    pub closed spec fn stage(&self) -> Stage {
        self.stage
    }

    /// The bytes of the body read so far.
    pub closed spec fn read(&self) -> Seq<u8> {
        self.reader@
    }

    /// The stage fits the configuration, and no more of the body is in hand
    /// than the endpoint allows.
    pub closed spec fn wf(&self) -> bool {
        &&& stage_fits(self.config, self.stage)
        &&& self.reader.limit() == self.config.max_payload_size
        &&& self.reader@.len() <= self.config.max_payload_size
    }

    /// Begins the pipeline for a request: the first action is to derive the
    /// context from the request head.
    pub fn start(config: PipelineConfig, head: &RequestHead) -> (r: (Pipeline, Action))
        ensures
            r.0.wf(),
            r.0.config() == config,
            r.0.json() == spec_is_content_type_json(head.content_type),
            r.0.stage() == Stage::Context,
            r.0.read() == Seq::<u8>::empty(),
            r.1@ == ActionView::DeriveContext,
    {
        let json = is_content_type_json(head);
        let reader = BodyReader::new(config.max_payload_size);
        (Pipeline { config, json, stage: Stage::Context, reader }, Action::DeriveContext)
    }

    /// The stage that the pipeline stands in.
    pub fn current_stage(&self) -> (r: Stage)
        ensures
            r == self.stage(),
    {
        self.stage
    }

    /// Whether the pipeline has given its response.
    pub fn is_done(&self) -> (r: bool)
        ensures
            r == (self.stage() == Stage::Done),
    {
        match self.stage {
            Stage::Done => true,
            _ => false,
        }
    }

    /// Whether the event is an outcome of the action that the pipeline asked
    /// for last.
    pub fn accepts(&self, event: &Event) -> (r: bool)
        ensures
            r == accepts(self.stage(), *event),
    {
        match self.stage {
            Stage::Context => match event {
                Event::ContextDerived => true,
                Event::ContextFailed(_) => true,
                _ => false,
            },
            Stage::ParamsParse | Stage::QueryParse | Stage::PayloadParse => match event {
                Event::Parsed => true,
                Event::ParseFailed(_) => true,
                _ => false,
            },
            Stage::ParamsValidate | Stage::QueryValidate | Stage::PayloadValidate => match event {
                Event::Validated => true,
                Event::ValidationFailed(_) => true,
                _ => false,
            },
            Stage::PayloadRead => match event {
                Event::Chunk(_) => true,
                Event::EndOfBody => true,
                Event::BodyFailed(_) => true,
                _ => false,
            },
            Stage::Invoke => match event {
                Event::Invoked => true,
                Event::InvokeFailed(_) => true,
                _ => false,
            },
            Stage::Serialize => match event {
                Event::Serialized(_) => true,
                Event::SerializeFailed => true,
                _ => false,
            },
            Stage::Done => false,
        }
    }

    /// Ends the pipeline with a failure caused by the request.
    fn refuse(&mut self, kind: ApiErrorKind, prefix: &str, detail: &str) -> (r: Action)
        ensures
            final(self).config == old(self).config,
            final(self).json == old(self).json,
            final(self).reader == old(self).reader,
            final(self).stage == Stage::Done,
            r@ == ActionView::Respond(error_response(400, kind, prefix@ + detail@)),
    {
        self.stage = Stage::Done;
        Action::Respond(ApiError::bad_request(kind, join(prefix, detail)).into_response())
    }

    /// Enters the handler stage.
    fn enter_invoke(&mut self) -> (r: Action)
        ensures
            final(self).config == old(self).config,
            final(self).json == old(self).json,
            final(self).reader == old(self).reader,
            final(self).stage == enter_invoke(old(self).config, old(self).reader@).stage,
            r@ == enter_invoke(old(self).config, old(self).reader@).action,
    {
        self.stage = Stage::Invoke;
        Action::Invoke {
            params: source_of(self.config.params_void),
            query: source_of(self.config.query_void),
            payload: source_of(self.config.payload_void),
        }
    }

    /// Enters the payload stage, or the first stage after it.
    fn enter_payload(&mut self) -> (r: Action)
        ensures
            final(self).config == old(self).config,
            final(self).json == old(self).json,
            final(self).reader == old(self).reader,
            final(self).stage == enter_payload(
                old(self).config,
                old(self).json,
                old(self).reader@,
            ).stage,
            r@ == enter_payload(old(self).config, old(self).json, old(self).reader@).action,
    {
        if self.config.payload_void {
            self.enter_invoke()
        } else if !self.json {
            proof {
                reveal_strlit("");
            }
            assert("content-type of request must be application/json"@ + ""@
                =~= "content-type of request must be application/json"@);
            self.refuse(
                ApiErrorKind::PayloadContentType,
                "content-type of request must be application/json",
                "",
            )
        } else {
            self.stage = Stage::PayloadRead;
            Action::ReadChunk
        }
    }

    /// Enters the query stage, or the first stage after it.
    fn enter_query(&mut self) -> (r: Action)
        ensures
            final(self).config == old(self).config,
            final(self).json == old(self).json,
            final(self).reader == old(self).reader,
            final(self).stage == enter_query(old(self).config, old(self).json, old(self).reader@).stage,
            r@ == enter_query(old(self).config, old(self).json, old(self).reader@).action,
    {
        if self.config.query_void {
            self.enter_payload()
        } else {
            self.stage = Stage::QueryParse;
            Action::ParseQuery
        }
    }

    /// Enters the path parameter stage, or the first stage after it.
    fn enter_params(&mut self) -> (r: Action)
        ensures
            final(self).config == old(self).config,
            final(self).json == old(self).json,
            final(self).reader == old(self).reader,
            final(self).stage == enter_params(
                old(self).config,
                old(self).json,
                old(self).reader@,
            ).stage,
            r@ == enter_params(old(self).config, old(self).json, old(self).reader@).action,
    {
        if self.config.params_void {
            self.enter_query()
        } else {
            self.stage = Stage::ParamsParse;
            Action::ParseParams
        }
    }

    /// Takes the outcome of the last action and gives the next action.
    pub fn step(&mut self, event: Event) -> (r: Action)
        requires
            old(self).wf(),
            accepts(old(self).stage(), event),
        ensures
            final(self).wf(),
            final(self).config() == old(self).config(),
            final(self).json() == old(self).json(),
            final(self).stage() == spec_step(
                old(self).config(),
                old(self).json(),
                old(self).stage(),
                old(self).read(),
                event,
            ).stage,
            final(self).read() == spec_step(
                old(self).config(),
                old(self).json(),
                old(self).stage(),
                old(self).read(),
                event,
            ).read,
            r@ == spec_step(
                old(self).config(),
                old(self).json(),
                old(self).stage(),
                old(self).read(),
                event,
            ).action,
    {
        match self.stage {
            Stage::Context => match event {
                Event::ContextFailed(e) => {
                    self.stage = Stage::Done;
                    Action::Respond(e.into_response())
                },
                _ => self.enter_params(),
            },
            Stage::ParamsParse => match event {
                Event::ParseFailed(detail) => self.refuse(
                    ApiErrorKind::InvalidParamsParse,
                    "error parsing path parameters: ",
                    detail.as_str(),
                ),
                _ => {
                    self.stage = Stage::ParamsValidate;
                    Action::ValidateParams
                },
            },
            Stage::ParamsValidate => match event {
                Event::ValidationFailed(detail) => self.refuse(
                    ApiErrorKind::InvalidParamsValidate,
                    "error validating path parameters: ",
                    detail.as_str(),
                ),
                _ => self.enter_query(),
            },
            Stage::QueryParse => match event {
                Event::ParseFailed(detail) => self.refuse(
                    ApiErrorKind::InvalidQueryParse,
                    "error parsing query parameters: ",
                    detail.as_str(),
                ),
                _ => {
                    self.stage = Stage::QueryValidate;
                    Action::ValidateQuery
                },
            },
            Stage::QueryValidate => match event {
                Event::ValidationFailed(detail) => self.refuse(
                    ApiErrorKind::InvalidQueryValidate,
                    "error validating query parameters: ",
                    detail.as_str(),
                ),
                _ => self.enter_payload(),
            },
            Stage::PayloadRead => match event {
                Event::Chunk(bytes) => match self.reader.push(bytes.as_slice()) {
                    Err(e) => {
                        self.stage = Stage::Done;
                        Action::Respond(e.into_api_error().into_response())
                    },
                    Ok(()) => Action::ReadChunk,
                },
                Event::BodyFailed(detail) => self.refuse(
                    ApiErrorKind::PayloadRead,
                    "error reading payload: ",
                    detail.as_str(),
                ),
                _ => {
                    self.stage = Stage::PayloadParse;
                    let mut reader = BodyReader::new(self.config.max_payload_size);
                    std::mem::swap(&mut self.reader, &mut reader);
                    Action::ParsePayload(reader.finish())
                },
            },
            Stage::PayloadParse => match event {
                Event::ParseFailed(detail) => self.refuse(
                    ApiErrorKind::InvalidPayloadParse,
                    "error parsing payload: ",
                    detail.as_str(),
                ),
                _ => {
                    self.stage = Stage::PayloadValidate;
                    Action::ValidatePayload
                },
            },
            Stage::PayloadValidate => match event {
                Event::ValidationFailed(detail) => self.refuse(
                    ApiErrorKind::InvalidPayloadValidate,
                    "error validating payload: ",
                    detail.as_str(),
                ),
                _ => self.enter_invoke(),
            },
            Stage::Invoke => match event {
                Event::InvokeFailed(e) => {
                    self.stage = Stage::Done;
                    Action::Respond(e.into_response())
                },
                _ => {
                    self.stage = Stage::Serialize;
                    Action::Serialize
                },
            },
            Stage::Serialize => match event {
                Event::Serialized(bytes) => {
                    self.stage = Stage::Done;
                    Action::Respond(to_response(Ok(Some(bytes))))
                },
                _ => {
                    self.stage = Stage::Done;
                    Action::Respond(to_response(Ok(None)))
                },
            },
            // No event is accepted in `Done`.
            Stage::Done => Action::Serialize,
        }
    }
}

/// The source of a slot.
pub fn source_of(void: bool) -> (r: Source)
    ensures
        r == source(void),
{
    if void {
        Source::Void
    } else {
        Source::Parsed
    }
}

/// The place of a stage in the order of the pipeline.
pub open spec fn rank(stage: Stage) -> nat {
    match stage {
        Stage::Context => 0,
        Stage::ParamsParse => 1,
        Stage::ParamsValidate => 2,
        Stage::QueryParse => 3,
        Stage::QueryValidate => 4,
        Stage::PayloadRead => 5,
        Stage::PayloadParse => 6,
        Stage::PayloadValidate => 7,
        Stage::Invoke => 8,
        Stage::Serialize => 9,
        Stage::Done => 10,
    }
}

/// The stages run in their order: a step never leads back, and it stays in
/// its stage only while the body is read, chunk after chunk.
pub proof fn lemma_stages_only_advance(
    c: PipelineConfig,
    json: bool,
    stage: Stage,
    read: Seq<u8>,
    event: Event,
)
    requires
        accepts(stage, event),
    ensures
        rank(stage) <= rank(spec_step(c, json, stage, read, event).stage),
        rank(stage) == rank(spec_step(c, json, stage, read, event).stage) ==> stage
            == Stage::PayloadRead && event is Chunk,
{
}

/// A void slot is skipped. Whatever the stage and the event: nothing is
/// parsed or validated for a void slot, no byte of the body is asked for
/// where the payload is void, the handler gets the sentinel for each void
/// slot, and the stage that follows fits the configuration again.
pub proof fn lemma_void_slots_are_skipped(
    c: PipelineConfig,
    json: bool,
    stage: Stage,
    read: Seq<u8>,
    event: Event,
)
    requires
        stage_fits(c, stage),
        accepts(stage, event),
    ensures
        stage_fits(c, spec_step(c, json, stage, read, event).stage),
        c.params_void ==> {
            let a = spec_step(c, json, stage, read, event).action;
            &&& !(a is ParseParams)
            &&& !(a is ValidateParams)
            &&& a is Invoke ==> a->Invoke_params == Source::Void
        },
        c.query_void ==> {
            let a = spec_step(c, json, stage, read, event).action;
            &&& !(a is ParseQuery)
            &&& !(a is ValidateQuery)
            &&& a is Invoke ==> a->Invoke_query == Source::Void
        },
        c.payload_void ==> {
            let a = spec_step(c, json, stage, read, event).action;
            &&& !(a is ReadChunk)
            &&& !(a is ParsePayload)
            &&& !(a is ValidatePayload)
            &&& a is Invoke ==> a->Invoke_payload == Source::Void
        },
{
}

/// A slot is validated only after it was parsed: the action that validates a
/// slot is given in the stage that parses that slot, on the event `Parsed`,
/// and nowhere else.
pub proof fn lemma_validation_follows_parsing(
    c: PipelineConfig,
    json: bool,
    stage: Stage,
    read: Seq<u8>,
    event: Event,
)
    requires
        accepts(stage, event),
    ensures
        spec_step(c, json, stage, read, event).action is ValidateParams <==> stage
            == Stage::ParamsParse && event is Parsed,
        spec_step(c, json, stage, read, event).action is ValidateQuery <==> stage
            == Stage::QueryParse && event is Parsed,
        spec_step(c, json, stage, read, event).action is ValidatePayload <==> stage
            == Stage::PayloadParse && event is Parsed,
{
}

/// A failure ends the pipeline: a step gives a response exactly when it
/// leads to `Done`, and `Done` accepts no event, so no later stage is tried.
pub proof fn lemma_response_ends_pipeline(
    c: PipelineConfig,
    json: bool,
    stage: Stage,
    read: Seq<u8>,
    event: Event,
)
    requires
        accepts(stage, event),
    ensures
        spec_step(c, json, stage, read, event).action is Respond <==> spec_step(
            c,
            json,
            stage,
            read,
            event,
        ).stage == Stage::Done,
        forall|e: Event| !accepts(Stage::Done, e),
{
}

/// A payload whose content type is not JSON is refused before any byte of
/// its body is asked for: the step that would enter the payload stage
/// responds with `PayloadContentType` and status 400.
pub proof fn lemma_content_type_is_checked_first(c: PipelineConfig, read: Seq<u8>)
    requires
        !c.payload_void,
    ensures
        enter_payload(c, false, read).stage == Stage::Done,
        enter_payload(c, false, read).action == ActionView::Respond(
            error_response(
                400,
                ApiErrorKind::PayloadContentType,
                "content-type of request must be application/json"@,
            ),
        ),
{
}

/// The body is never held beyond the limit: a chunk that would take the
/// bytes in hand over `max_payload_size` ends the pipeline with `PayloadRead`
/// and status 400 and is not added; any other chunk is added, and the bytes
/// in hand stay within the limit.
pub proof fn lemma_body_stays_within_limit(
    c: PipelineConfig,
    json: bool,
    read: Seq<u8>,
    bytes: Vec<u8>,
)
    requires
        read.len() <= c.max_payload_size,
    ensures
        spec_step(c, json, Stage::PayloadRead, read, Event::Chunk(bytes)).read.len()
            <= c.max_payload_size,
        read.len() + bytes@.len() > c.max_payload_size ==> {
            let s = spec_step(c, json, Stage::PayloadRead, read, Event::Chunk(bytes));
            &&& s.stage == Stage::Done
            &&& s.read == read
            &&& s.action == ActionView::Respond(
                error_response(
                    400,
                    ApiErrorKind::PayloadRead,
                    "error reading payload: "@ + ReadBodyErrorView::MaxSizeExceeded(
                        c.max_payload_size,
                    ).message(),
                ),
            )
        },
        read.len() + bytes@.len() <= c.max_payload_size ==> {
            let s = spec_step(c, json, Stage::PayloadRead, read, Event::Chunk(bytes));
            &&& s.stage == Stage::PayloadRead
            &&& s.read == read + bytes@
            &&& s.action == ActionView::ReadChunk
        },
{
}

} // verus!
