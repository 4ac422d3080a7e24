//! Provider-surface detection and best-effort normalization of raw provider
//! request and response bodies.
//!
//! Requests are classified by their top-level keys, in a fixed priority order
//! (first match wins): OpenAI Responses (`input` or `instructions`), then
//! Anthropic Messages (`system`), then OpenAI Chat (`messages`). Responses are
//! classified only when exactly one surface's shape matches: OpenAI Responses
//! (`output`), Anthropic Messages (`content`), OpenAI Chat (`choices`).

use vstd::prelude::*;

use crate::json::{members_contain_key, members_have_key, str_eq, Json};

verus! {

/// A built-in provider request/response surface.
#[derive(Debug, Clone, Copy, PartialEq, Eq, Structural)]
pub enum ProviderSurface {
    /// OpenAI Chat Completions.
    OpenAIChat,
    /// OpenAI Responses.
    OpenAIResponses,
    /// Anthropic Messages.
    AnthropicMessages,
}

/// The surfaces in detection priority order. The order is authoritative: a
/// hint-aware detector stays after any stronger-signal surface it could shadow.
pub open spec fn surface_registry() -> Seq<ProviderSurface> {
    seq![
        ProviderSurface::OpenAIResponses,
        ProviderSurface::AnthropicMessages,
        ProviderSurface::OpenAIChat,
    ]
}

/// A provider hint, as characters.
pub open spec fn hint_view(hint: Option<&str>) -> Option<Seq<char>> {
    match hint {
        Some(h) => Some(h@),
        None => None,
    }
}

/// The one hint that changes detection.
pub open spec fn is_anthropic_hint(hint: Option<Seq<char>>) -> bool {
    hint == Some("anthropic"@)
}

/// Whether an object's top-level keys have the request shape of a surface.
pub open spec fn request_shape_matches(
    surface: ProviderSurface,
    members: Seq<(String, Json)>,
    hint: Option<Seq<char>>,
) -> bool {
    match surface {
        ProviderSurface::OpenAIResponses => members_have_key(members, "input"@)
            || members_have_key(members, "instructions"@),
        ProviderSurface::AnthropicMessages => members_have_key(members, "system"@) || (
        is_anthropic_hint(hint) && members_have_key(members, "messages"@)),
        ProviderSurface::OpenAIChat => members_have_key(members, "messages"@),
    }
}

/// The first surface of `order` whose request shape matches.
pub open spec fn first_request_match(
    order: Seq<ProviderSurface>,
    members: Seq<(String, Json)>,
    hint: Option<Seq<char>>,
) -> Option<ProviderSurface>
    decreases order.len(),
{
    if order.len() == 0 {
        None
    } else if request_shape_matches(order[0], members, hint) {
        Some(order[0])
    } else {
        first_request_match(order.drop_first(), members, hint)
    }
}

/// The request surface of a body: `None` unless it is an object that some
/// surface's shape matches; otherwise the first such surface in priority order.
pub open spec fn request_surface_of(body: Json, hint: Option<Seq<char>>) -> Option<ProviderSurface> {
    match body.object_members() {
        Some(members) => first_request_match(surface_registry(), members, hint),
        None => None,
    }
}

/// Whether an object's top-level keys have the response shape of a surface.
pub open spec fn response_shape_matches(surface: ProviderSurface, members: Seq<(String, Json)>) -> bool {
    match surface {
        ProviderSurface::OpenAIResponses => members_have_key(members, "output"@),
        ProviderSurface::AnthropicMessages => members_have_key(members, "content"@),
        ProviderSurface::OpenAIChat => members_have_key(members, "choices"@),
    }
}

/// The surfaces of `order`, in order, whose response shape matches.
pub open spec fn response_matches(order: Seq<ProviderSurface>, members: Seq<(String, Json)>) -> Seq<
    ProviderSurface,
>
    decreases order.len(),
{
    if order.len() == 0 {
        Seq::empty()
    } else {
        let rest = response_matches(order.drop_last(), members);
        if response_shape_matches(order.last(), members) {
            rest.push(order.last())
        } else {
            rest
        }
    }
}

/// The response surface of a body: the single surface whose shape matches, or
/// `None` when the body is not an object or zero or several shapes match.
pub open spec fn response_surface_of(body: Json) -> Option<ProviderSurface> {
    match body.object_members() {
        Some(members) => {
            let found = response_matches(surface_registry(), members);
            if found.len() == 1 {
                Some(found[0])
            } else {
                None
            }
        },
        None => None,
    }
}

fn registry() -> (r: [ProviderSurface; 3])
    ensures
        r@ == surface_registry(),
{
    let r = [
        ProviderSurface::OpenAIResponses,
        ProviderSurface::AnthropicMessages,
        ProviderSurface::OpenAIChat,
    ];
    assert(r@ =~= surface_registry());
    r
}

fn is_anthropic(provider_hint: Option<&str>) -> (r: bool)
    ensures
        r == is_anthropic_hint(hint_view(provider_hint)),
{
    match provider_hint {
        Some(h) => str_eq(h, "anthropic"),
        None => false,
    }
}

fn detect_request_shape(
    surface: ProviderSurface,
    members: &Vec<(String, Json)>,
    provider_hint: Option<&str>,
) -> (r: bool)
    ensures
        r == request_shape_matches(surface, members@, hint_view(provider_hint)),
{
    match surface {
        ProviderSurface::OpenAIResponses => members_contain_key(members, "input")
            || members_contain_key(members, "instructions"),
        ProviderSurface::AnthropicMessages => members_contain_key(members, "system") || (
        is_anthropic(provider_hint) && members_contain_key(members, "messages")),
        ProviderSurface::OpenAIChat => members_contain_key(members, "messages"),
    }
}

fn detect_response_shape(surface: ProviderSurface, members: &Vec<(String, Json)>) -> (r: bool)
    ensures
        r == response_shape_matches(surface, members@),
{
    match surface {
        ProviderSurface::OpenAIResponses => members_contain_key(members, "output"),
        ProviderSurface::AnthropicMessages => members_contain_key(members, "content"),
        ProviderSurface::OpenAIChat => members_contain_key(members, "choices"),
    }
}

/// Detect the request surface from a raw request body by top-level key.
///
/// Priority: OpenAI Responses (`input`/`instructions`) > Anthropic Messages
/// (`system`) > OpenAI Chat (`messages`). `None` when no key matches or `body`
/// is not an object. An Anthropic request that omits the optional top-level
/// `system` is indistinguishable from OpenAI Chat and classifies as `OpenAIChat`.
pub fn detect_request_surface(body: &Json) -> (r: Option<ProviderSurface>)
    ensures
        r == request_surface_of(*body, None),
{
    detect_request_surface_with_hint(body, None)
}

/// Like [`detect_request_surface`], but a recognized `provider_hint` resolves the
/// one ambiguous shape (an Anthropic request without a top-level `system`,
/// otherwise read as OpenAI Chat). `"anthropic"` is the only hint that changes
/// detection; `None` or any other value is ignored.
pub fn detect_request_surface_with_hint(body: &Json, provider_hint: Option<&str>) -> (r: Option<
    ProviderSurface,
>)
    ensures
        r == request_surface_of(*body, hint_view(provider_hint)),
{
    let members = match body.as_object() {
        Some(members) => members,
        None => return None,
    };
    let order = registry();
    let ghost hint = hint_view(provider_hint);
    let mut i: usize = 0;
    assert(surface_registry().skip(0) =~= surface_registry());
    while i < 3
        invariant
            i <= 3,
            order@ == surface_registry(),
            body.object_members() == Some(members@),
            hint == hint_view(provider_hint),
            first_request_match(surface_registry(), members@, hint) == first_request_match(
                surface_registry().skip(i as int),
                members@,
                hint,
            ),
        decreases 3 - i,
    {
        assert(surface_registry().skip(i as int).drop_first() =~= surface_registry().skip(
            i + 1,
        ));
        if detect_request_shape(order[i], members, provider_hint) {
            return Some(order[i]);
        }
        i = i + 1;
    }
    None
}

/// The single surface whose response shape the object has, if exactly one does.
fn detect_response_descriptor(members: &Vec<(String, Json)>) -> (r: Option<ProviderSurface>)
    ensures
        r == ({
            let found = response_matches(surface_registry(), members@);
            if found.len() == 1 {
                Some(found[0])
            } else {
                None
            }
        }),
{
    let order = registry();
    let mut found: Vec<ProviderSurface> = Vec::new();
    let mut i: usize = 0;
    while i < 3
        invariant
            i <= 3,
            order@ == surface_registry(),
            found@ == response_matches(surface_registry().take(i as int), members@),
        decreases 3 - i,
    {
        assert(surface_registry().take(i + 1).drop_last() =~= surface_registry().take(i as int));
        if detect_response_shape(order[i], members) {
            found.push(order[i]);
        }
        i = i + 1;
    }
    assert(surface_registry().take(3) =~= surface_registry());
    if found.len() == 1 {
        Some(found[0])
    } else {
        None
    }
}

/// Detect the response surface from a raw provider response, classifying only
/// when exactly one built-in shape matches.
pub fn detect_response_surface(raw: &Json) -> (r: Option<ProviderSurface>)
    ensures
        r == response_surface_of(*raw),
{
    match raw.as_object() {
        Some(members) => detect_response_descriptor(members),
        None => None,
    }
}

/// Request detection follows the documented priority: OpenAI Responses
/// (`input` or `instructions`) over Anthropic Messages (`system`, or `messages`
/// under the `"anthropic"` hint) over OpenAI Chat (`messages`); a body that is
/// not an object, or that has none of these keys, is not classified.
pub proof fn lemma_request_priority(body: Json, hint: Option<Seq<char>>)
    ensures
        request_surface_of(body, hint) == (match body.object_members() {
            Some(m) => if members_have_key(m, "input"@) || members_have_key(m, "instructions"@) {
                Some(ProviderSurface::OpenAIResponses)
            } else if members_have_key(m, "system"@) || (is_anthropic_hint(hint)
                && members_have_key(m, "messages"@)) {
                Some(ProviderSurface::AnthropicMessages)
            } else if members_have_key(m, "messages"@) {
                Some(ProviderSurface::OpenAIChat)
            } else {
                None
            },
            None => None,
        }),
{
    reveal_with_fuel(first_request_match, 4);
    assert(surface_registry().drop_first() =~= seq![
        ProviderSurface::AnthropicMessages,
        ProviderSurface::OpenAIChat,
    ]);
    assert(surface_registry().drop_first().drop_first() =~= seq![ProviderSurface::OpenAIChat]);
    assert(surface_registry().drop_first().drop_first().drop_first() =~= Seq::<
        ProviderSurface,
    >::empty());
}

/// A provider hint changes detection only for the ambiguous shape: any hint
/// other than `"anthropic"` is ignored, and `"anthropic"` turns exactly the
/// bodies otherwise read as OpenAI Chat into Anthropic Messages.
pub proof fn lemma_hint_resolves_only_chat_shape(body: Json, hint: Option<Seq<char>>)
    ensures
        !is_anthropic_hint(hint) ==> request_surface_of(body, hint) == request_surface_of(
            body,
            None,
        ),
        is_anthropic_hint(hint) ==> request_surface_of(body, hint) == (if request_surface_of(
            body,
            None,
        ) == Some(ProviderSurface::OpenAIChat) {
            Some(ProviderSurface::AnthropicMessages)
        } else {
            request_surface_of(body, None)
        }),
{
    lemma_request_priority(body, hint);
    lemma_request_priority(body, None);
}

/// Response detection classifies a body as `s` exactly when the body is an
/// object whose shape matches `s` and matches no other surface.
pub proof fn lemma_response_unique_match(body: Json, s: ProviderSurface)
    ensures
        response_surface_of(body) == Some(s) <==> (body.object_members() matches Some(m) && {
            &&& response_shape_matches(s, m)
            &&& forall|t: ProviderSurface| t != s ==> !response_shape_matches(t, m)
        }),
{
    reveal_with_fuel(response_matches, 4);
    assert(surface_registry().drop_last() =~= seq![
        ProviderSurface::OpenAIResponses,
        ProviderSurface::AnthropicMessages,
    ]);
    assert(surface_registry().drop_last().drop_last() =~= seq![ProviderSurface::OpenAIResponses]);
    assert(surface_registry().drop_last().drop_last().drop_last() =~= Seq::<
        ProviderSurface,
    >::empty());
}

/// Detection reads only the top-level keys: two objects with the same keys are
/// classified alike, as requests under any hint and as responses.
pub proof fn lemma_detection_reads_only_keys(a: Json, b: Json, hint: Option<Seq<char>>)
    requires
        a.object_members() is Some,
        b.object_members() is Some,
        forall|k: Seq<char>|
            members_have_key(a.object_members().unwrap(), k) == members_have_key(
                b.object_members().unwrap(),
                k,
            ),
    ensures
        request_surface_of(a, hint) == request_surface_of(b, hint),
        response_surface_of(a) == response_surface_of(b),
{
    let ma = a.object_members().unwrap();
    let mb = b.object_members().unwrap();
    lemma_request_priority(a, hint);
    lemma_request_priority(b, hint);
    assert(members_have_key(ma, "input"@) == members_have_key(mb, "input"@));
    assert(members_have_key(ma, "instructions"@) == members_have_key(mb, "instructions"@));
    assert(members_have_key(ma, "system"@) == members_have_key(mb, "system"@));
    assert(members_have_key(ma, "messages"@) == members_have_key(mb, "messages"@));
    assert(members_have_key(ma, "output"@) == members_have_key(mb, "output"@));
    assert(members_have_key(ma, "content"@) == members_have_key(mb, "content"@));
    assert(members_have_key(ma, "choices"@) == members_have_key(mb, "choices"@));
    reveal_with_fuel(response_matches, 4);
}

/// A provider hint is read as its characters, and no hint as none.
pub proof fn lemma_hint_read_as_given(hint: &str)
    ensures
        hint_view(Some(hint)) == Some(hint@),
        hint_view(None) is None,
{
}

/// Only the exact hint `"anthropic"` changes request detection: under every
/// other hint the result is the one without a hint, and under `"anthropic"` a
/// body read as OpenAI Chat without a hint is read as Anthropic Messages.
pub proof fn lemma_only_exact_anthropic_hint_counts(body: Json, hint: Seq<char>)
    ensures
        hint != "anthropic"@ ==> request_surface_of(body, Some(hint)) == request_surface_of(
            body,
            None,
        ),
        request_surface_of(body, None) == Some(ProviderSurface::OpenAIChat)
            ==> request_surface_of(body, Some("anthropic"@)) == Some(
            ProviderSurface::AnthropicMessages,
        ),
        request_surface_of(body, None) != Some(ProviderSurface::OpenAIChat)
            ==> request_surface_of(body, Some("anthropic"@)) == request_surface_of(body, None),
{
    lemma_hint_resolves_only_chat_shape(body, Some(hint));
    lemma_hint_resolves_only_chat_shape(body, Some("anthropic"@));
}

/// Response shapes are fixed by one top-level key each: `output` for OpenAI
/// Responses, `content` for Anthropic Messages, `choices` for OpenAI Chat; no
/// other key makes a shape match.
pub proof fn lemma_response_shape_keys(members: Seq<(String, Json)>)
    ensures
        response_shape_matches(ProviderSurface::OpenAIResponses, members) <==> exists|i: int|
            0 <= i < members.len() && members[i].0@ == "output"@,
        response_shape_matches(ProviderSurface::AnthropicMessages, members) <==> exists|i: int|
            0 <= i < members.len() && members[i].0@ == "content"@,
        response_shape_matches(ProviderSurface::OpenAIChat, members) <==> exists|i: int|
            0 <= i < members.len() && members[i].0@ == "choices"@,
{
    crate::json::lemma_key_lookup_sees_every_member(members, "output"@);
    crate::json::lemma_key_lookup_sees_every_member(members, "content"@);
    crate::json::lemma_key_lookup_sees_every_member(members, "choices"@);
}

/// A response object is classified by its shape keys alone: it is OpenAI
/// Chat exactly when `choices` is its only shape key, Anthropic Messages when
/// `content` is, OpenAI Responses when `output` is, whatever other keys it has;
/// with no shape key, or with several, it is not classified.
pub proof fn lemma_response_surface_by_keys(body: Json)
    ensures
        body.object_members() matches Some(m) ==> {
            let output = exists|i: int| 0 <= i < m.len() && m[i].0@ == "output"@;
            let content = exists|i: int| 0 <= i < m.len() && m[i].0@ == "content"@;
            let choices = exists|i: int| 0 <= i < m.len() && m[i].0@ == "choices"@;
            &&& response_surface_of(body) == Some(ProviderSurface::OpenAIResponses) <==> (output
                && !content && !choices)
            &&& response_surface_of(body) == Some(ProviderSurface::AnthropicMessages) <==> (
            content && !output && !choices)
            &&& response_surface_of(body) == Some(ProviderSurface::OpenAIChat) <==> (choices
                && !output && !content)
            &&& response_surface_of(body) is None <==> !((output && !content && !choices) || (
            content && !output && !choices) || (choices && !output && !content))
        },
        body.object_members() is None ==> response_surface_of(body) is None,
{
    if let Some(m) = body.object_members() {
        lemma_response_shape_keys(m);
        lemma_response_unique_match(body, ProviderSurface::OpenAIResponses);
        lemma_response_unique_match(body, ProviderSurface::AnthropicMessages);
        lemma_response_unique_match(body, ProviderSurface::OpenAIChat);
    }
}

/// A request body with a top-level `system` key and neither `input` nor
/// `instructions` is Anthropic Messages, wherever `system` stands among its
/// members and whatever the hint.
pub proof fn lemma_system_key_means_anthropic(body: Json, hint: Option<Seq<char>>)
    ensures
        body.object_members() matches Some(m) ==> (
        (exists|i: int| 0 <= i < m.len() && m[i].0@ == "system"@) && !(exists|i: int|
            0 <= i < m.len() && m[i].0@ == "input"@) && !(exists|i: int|
            0 <= i < m.len() && m[i].0@ == "instructions"@) ==> request_surface_of(body, hint)
            == Some(ProviderSurface::AnthropicMessages)),
{
    lemma_request_priority(body, hint);
    if let Some(m) = body.object_members() {
        crate::json::lemma_key_lookup_sees_every_member(m, "system"@);
        crate::json::lemma_key_lookup_sees_every_member(m, "input"@);
        crate::json::lemma_key_lookup_sees_every_member(m, "instructions"@);
    }
}

/// A raw LLM request as a provider receives it.
#[derive(Debug)]
pub struct LlmRequest {
    /// The request body.
    pub content: Json,
}

/// A request annotated with the surface whose codec claims it.
#[derive(Debug)]
pub struct AnnotatedLlmRequest {
    /// The surface that claimed the request.
    pub surface: ProviderSurface,
    /// The request itself.
    pub request: LlmRequest,
}

/// A raw provider response annotated with the surface whose codec claims it.
#[derive(Debug)]
pub struct AnnotatedLlmResponse {
    /// The surface that claimed the response.
    pub surface: ProviderSurface,
    /// The raw response body.
    pub raw: Json,
}

/// Annotates a raw request with the surface that [`detect_request_surface`]
/// finds for its body: `Some` exactly when the body is classified, carrying
/// that surface and the request unchanged; no codec decoding takes place (see
/// [`normalize_request_with`] for the decoding form).
pub fn normalize_request(request: &LlmRequest) -> (r: Option<AnnotatedLlmRequest>)
    ensures
        r is Some <==> request_surface_of(request.content, None) is Some,
        r matches Some(a) ==> {
            &&& request_surface_of(request.content, None) == Some(a.surface)
            &&& a.request.content@ == request.content@
        },
{
    match detect_request_surface(&request.content) {
        Some(surface) => Some(
            AnnotatedLlmRequest {
                surface,
                request: LlmRequest { content: request.content.duplicate() },
            },
        ),
        None => None,
    }
}

/// Annotates a raw response with the surface that [`detect_response_surface`]
/// finds for it: `Some` exactly when the body is classified, carrying that
/// same surface and the body unchanged; no codec decoding takes place (see
/// [`normalize_response_with`] for the decoding form).
pub fn normalize_response(raw: &Json) -> (r: Option<AnnotatedLlmResponse>)
    ensures
        r is Some <==> response_surface_of(*raw) is Some,
        r matches Some(a) ==> {
            &&& response_surface_of(*raw) == Some(a.surface)
            &&& a.raw@ == raw@
        },
{
    match raw.as_object() {
        Some(members) => match detect_response_descriptor(members) {
            Some(surface) => Some(AnnotatedLlmResponse { surface, raw: raw.duplicate() }),
            None => None,
        },
        None => None,
    }
}

/// What a fail-open decode keeps of a decoder's result: the decoded value, or
/// `None` when decoding failed.
pub open spec fn decoded_or_none<T, E>(decoded: Result<T, E>) -> Option<T> {
    match decoded {
        Ok(value) => Some(value),
        Err(_) => None,
    }
}

/// Best-effort decode of a raw request (fail-open): `None` when
/// [`detect_request_surface`] does not classify the body; otherwise the
/// surface's decoder `decode` runs on the request, and its value is kept, or
/// `None` when it fails.
pub fn normalize_request_with<T, E, F: Fn(ProviderSurface, &LlmRequest) -> Result<T, E>>(
    request: &LlmRequest,
    decode: F,
) -> (r: Option<T>)
    requires
        forall|s: ProviderSurface| call_requires(decode, (s, request)),
    ensures
        request_surface_of(request.content, None) is None ==> r is None,
        request_surface_of(request.content, None) matches Some(s) ==> exists|d: Result<T, E>|
            call_ensures(decode, (s, request), d) && r == decoded_or_none(d),
{
    match detect_request_surface(&request.content) {
        Some(surface) => {
            let decoded = decode(surface, request);
            let ghost d = decoded;
            let r = match decoded {
                Ok(value) => Some(value),
                Err(_) => None,
            };
            assert(call_ensures(decode, (surface, request), d) && r == decoded_or_none(d));
            r
        },
        None => None,
    }
}

/// Best-effort decode of a raw response (fail-open): `None` unless
/// [`detect_response_surface`] classifies the body; otherwise the surface's
/// decoder `decode` runs on the body, and its value is kept, or `None` when it
/// fails.
pub fn normalize_response_with<T, E, F: Fn(ProviderSurface, &Json) -> Result<T, E>>(
    raw: &Json,
    decode: F,
) -> (r: Option<T>)
    requires
        forall|s: ProviderSurface| call_requires(decode, (s, raw)),
    ensures
        response_surface_of(*raw) is None ==> r is None,
        response_surface_of(*raw) matches Some(s) ==> exists|d: Result<T, E>|
            call_ensures(decode, (s, raw), d) && r == decoded_or_none(d),
{
    match detect_response_surface(raw) {
        Some(surface) => {
            let decoded = decode(surface, raw);
            let ghost d = decoded;
            let r = match decoded {
                Ok(value) => Some(value),
                Err(_) => None,
            };
            assert(call_ensures(decode, (surface, raw), d) && r == decoded_or_none(d));
            r
        },
        None => None,
    }
}

} // verus!
