//! Decisions of the MCP server: method and tool routing, the tool and
//! resource tables, wait strategies, key events, interactive-element
//! selection, semantic-tree text and message framing.
//!
//! The server itself (stdin/stdout, the browser, JSON) lives with the
//! application; everything it decides is here.

use vstd::prelude::*;
use vstd::utf8::*;

verus! {

/// The MCP protocol revision this server speaks.
pub const MCP_PROTOCOL_VERSION: &'static str = "2024-11-05";

/// JSON-RPC error code of a request that is not valid JSON.
pub const MCP_PARSE_ERROR: i64 = -32700;

/// JSON-RPC error code of an unknown method.
pub const MCP_METHOD_NOT_FOUND: i64 = -32601;

/// JSON-RPC error code of a failed resource read.
pub const MCP_SERVER_ERROR: i64 = -32000;

// ---------------------------------------------------------------------------
// Text

/// Whether two string slices hold the same text.
pub fn text_is(a: &str, b: &str) -> (same: bool)
    ensures
        same == (a@ == b@),
{
    let a_owned = a.to_owned();
    let b_owned = b.to_owned();
    a_owned == b_owned
}

/// `c` with ASCII letters mapped to lower case.
pub open spec fn ascii_lower(c: char) -> char {
    if 65 <= (c as u32) <= 90 {
        ((c as u32) + 32) as char
    } else {
        c
    }
}

/// `c` with ASCII letters mapped to upper case.
pub open spec fn ascii_upper(c: char) -> char {
    if 97 <= (c as u32) <= 122 {
        ((c as u32) - 32) as char
    } else {
        c
    }
}

/// `s` with ASCII letters mapped to lower case.
pub open spec fn ascii_lowercase_of(s: Seq<char>) -> Seq<char> {
    s.map_values(|c: char| ascii_lower(c))
}

/// Copies `s` with every ASCII letter in lower case; calls
/// `str::to_ascii_lowercase`, which maps `A`..`Z` to `a`..`z` and keeps every
/// other character.
#[verifier::external_body]
fn ascii_lowercase(s: &str) -> (lower: String)
    ensures
        lower@ == ascii_lowercase_of(s@),
{
    s.to_ascii_lowercase()
}

/// The characters that Unicode gives the `White_Space` property.
pub open spec fn is_unicode_whitespace(c: char) -> bool {
    let v = c as u32;
    (9 <= v <= 13) || v == 32 || v == 0x85 || v == 0xA0 || v == 0x1680 || (0x2000 <= v <= 0x200A)
        || v == 0x2028 || v == 0x2029 || v == 0x202F || v == 0x205F || v == 0x3000
}

/// `s` without its leading whitespace.
pub open spec fn trim_start_text(s: Seq<char>) -> Seq<char>
    decreases s.len(),
{
    if s.len() > 0 && is_unicode_whitespace(s[0]) {
        trim_start_text(s.drop_first())
    } else {
        s
    }
}

/// `s` without its trailing whitespace.
pub open spec fn trim_end_text(s: Seq<char>) -> Seq<char>
    decreases s.len(),
{
    if s.len() > 0 && is_unicode_whitespace(s.last()) {
        trim_end_text(s.drop_last())
    } else {
        s
    }
}

/// `s` without leading and trailing whitespace.
pub open spec fn trim_text(s: Seq<char>) -> Seq<char> {
    trim_end_text(trim_start_text(s))
}

/// `s` without leading and trailing whitespace; calls `str::trim`, which
/// removes the characters with the Unicode `White_Space` property.
#[verifier::external_body]
fn trim_whitespace(s: &str) -> (trimmed: &str)
    ensures
        trimmed@ == trim_text(s@),
{
    s.trim()
}

/// `s` without trailing whitespace; calls `str::trim_end`.
#[verifier::external_body]
fn trim_end_whitespace(s: &str) -> (trimmed: &str)
    ensures
        trimmed@ == trim_end_text(s@),
{
    s.trim_end()
}

/// Whether `needle` occurs in `haystack` as a contiguous run.
pub open spec fn contains_text(haystack: Seq<char>, needle: Seq<char>) -> bool {
    exists|i: int|
        #![trigger haystack.subrange(i, i + needle.len())]
        0 <= i && i + needle.len() <= haystack.len() && haystack.subrange(i, i + needle.len()) == needle
}

/// Whether `needle` occurs in `haystack`; calls `str::contains`.
#[verifier::external_body]
fn text_contains(haystack: &str, needle: &str) -> (found: bool)
    ensures
        found == contains_text(haystack@, needle@),
{
    haystack.contains(needle)
}

// ---------------------------------------------------------------------------
// Key events

/// The `key`, `code` and `text` of a key event.
pub struct KeySpec<'a> {
    pub key: &'a str,
    pub code: &'a str,
    pub text: &'a str,
}

/// Whether `c` is an ASCII letter.
pub open spec fn is_ascii_letter(c: char) -> bool {
    (65 <= (c as u32) <= 90) || (97 <= (c as u32) <= 122)
}

/// Whether `c` is an ASCII digit.
pub open spec fn is_ascii_digit_char(c: char) -> bool {
    48 <= (c as u32) <= 57
}

/// The `(key, code, text)` of the key event for a key name.
///
/// A single ASCII character types itself: a letter has code `Key` and its
/// upper-case form, a digit `Digit` and the digit, a space `Space`, any other
/// character `Unidentified`.  Any other name (`Enter`, `Tab`, `ArrowUp`, ...)
/// is its own code and types nothing.
pub open spec fn key_spec_view(key: Seq<char>) -> (Seq<char>, Seq<char>, Seq<char>) {
    if key.len() == 1 && (key[0] as u32) < 128 {
        let c = key[0];
        if is_ascii_letter(c) {
            (key, seq!['K', 'e', 'y', ascii_upper(c)], key)
        } else if is_ascii_digit_char(c) {
            (key, seq!['D', 'i', 'g', 'i', 't', c], key)
        } else if c == ' ' {
            (key, "Space"@, key)
        } else {
            (key, "Unidentified"@, key)
        }
    } else {
        (key, key, Seq::empty())
    }
}

/// The key event for the key named `key`.
pub fn key_spec(key: &str) -> (spec: KeySpec<'_>)
    ensures
        (spec.key@, spec.code@, spec.text@) == key_spec_view(key@),
{
    if key.unicode_len() == 1 {
        let ch = key.get_char(0);
        let point = ch as u32;
        if point < 128 {
            if (65 <= point && point <= 90) || (97 <= point && point <= 122) {
                let upper = if 97 <= point { point - 32 } else { point };
                let code: &str = match upper {
                    65 => { proof { reveal_strlit("KeyA"); } "KeyA" },
                    66 => { proof { reveal_strlit("KeyB"); } "KeyB" },
                    67 => { proof { reveal_strlit("KeyC"); } "KeyC" },
                    68 => { proof { reveal_strlit("KeyD"); } "KeyD" },
                    69 => { proof { reveal_strlit("KeyE"); } "KeyE" },
                    70 => { proof { reveal_strlit("KeyF"); } "KeyF" },
                    71 => { proof { reveal_strlit("KeyG"); } "KeyG" },
                    72 => { proof { reveal_strlit("KeyH"); } "KeyH" },
                    73 => { proof { reveal_strlit("KeyI"); } "KeyI" },
                    74 => { proof { reveal_strlit("KeyJ"); } "KeyJ" },
                    75 => { proof { reveal_strlit("KeyK"); } "KeyK" },
                    76 => { proof { reveal_strlit("KeyL"); } "KeyL" },
                    77 => { proof { reveal_strlit("KeyM"); } "KeyM" },
                    78 => { proof { reveal_strlit("KeyN"); } "KeyN" },
                    79 => { proof { reveal_strlit("KeyO"); } "KeyO" },
                    80 => { proof { reveal_strlit("KeyP"); } "KeyP" },
                    81 => { proof { reveal_strlit("KeyQ"); } "KeyQ" },
                    82 => { proof { reveal_strlit("KeyR"); } "KeyR" },
                    83 => { proof { reveal_strlit("KeyS"); } "KeyS" },
                    84 => { proof { reveal_strlit("KeyT"); } "KeyT" },
                    85 => { proof { reveal_strlit("KeyU"); } "KeyU" },
                    86 => { proof { reveal_strlit("KeyV"); } "KeyV" },
                    87 => { proof { reveal_strlit("KeyW"); } "KeyW" },
                    88 => { proof { reveal_strlit("KeyX"); } "KeyX" },
                    89 => { proof { reveal_strlit("KeyY"); } "KeyY" },
                    90 => { proof { reveal_strlit("KeyZ"); } "KeyZ" },
                    _ => { proof { reveal_strlit("KeyZ"); } "KeyZ" },
                };
                return KeySpec { key, code, text: key };
            } else if 48 <= point && point <= 57 {
                let code: &str = match point {
                    48 => { proof { reveal_strlit("Digit0"); } "Digit0" },
                    49 => { proof { reveal_strlit("Digit1"); } "Digit1" },
                    50 => { proof { reveal_strlit("Digit2"); } "Digit2" },
                    51 => { proof { reveal_strlit("Digit3"); } "Digit3" },
                    52 => { proof { reveal_strlit("Digit4"); } "Digit4" },
                    53 => { proof { reveal_strlit("Digit5"); } "Digit5" },
                    54 => { proof { reveal_strlit("Digit6"); } "Digit6" },
                    55 => { proof { reveal_strlit("Digit7"); } "Digit7" },
                    56 => { proof { reveal_strlit("Digit8"); } "Digit8" },
                    _ => { proof { reveal_strlit("Digit9"); } "Digit9" },
                };
                return KeySpec { key, code, text: key };
            } else if point == 32 {
                return KeySpec { key, code: "Space", text: key };
            } else {
                return KeySpec { key, code: "Unidentified", text: key };
            }
        }
    }
    proof {
        reveal_strlit("");
    }
    KeySpec { key, code: key, text: "" }
}

// ---------------------------------------------------------------------------
// Wait strategies

/// When a navigation counts as finished.
#[derive(Clone, Copy, Debug, PartialEq, Eq, Hash, Structural)]
pub enum RenderedDomWaitUntil {
    DomContentLoaded,
    Load,
    NetworkIdle,
    DomStable,
    Done,
}

/// The wait strategy a lower-case name selects, if any.
pub open spec fn wait_until_named(lower: Seq<char>) -> Option<RenderedDomWaitUntil> {
    if lower == "domcontentloaded"@ || lower == "dom_content_loaded"@ {
        Some(RenderedDomWaitUntil::DomContentLoaded)
    } else if lower == "load"@ {
        Some(RenderedDomWaitUntil::Load)
    } else if lower == "networkidle"@ || lower == "network_idle"@ {
        Some(RenderedDomWaitUntil::NetworkIdle)
    } else if lower == "domstable"@ || lower == "dom_stable"@ {
        Some(RenderedDomWaitUntil::DomStable)
    } else if lower == "done"@ {
        Some(RenderedDomWaitUntil::Done)
    } else {
        None
    }
}

/// The lower-cased wait strategy name of a request (`done` by default).
pub open spec fn requested_wait_until(raw: Option<Seq<char>>) -> Seq<char> {
    ascii_lowercase_of(
        match raw {
            Some(r) => r,
            None => "done"@,
        },
    )
}

/// Parses the `waitUntil` argument of a navigation, case-insensitively.
pub fn parse_wait_until(raw: Option<&str>) -> (parsed: Result<RenderedDomWaitUntil, String>)
    ensures
        ({
            let lower = requested_wait_until(
                match raw {
                    Some(r) => Some(r@),
                    None => None,
                },
            );
            match wait_until_named(lower) {
                Some(w) => parsed == Ok::<RenderedDomWaitUntil, String>(w),
                None => parsed is Err && parsed->Err_0@ == "unsupported waitUntil `"@ + lower + "`"@,
            }
        }),
{
    let name: &str = match raw {
        Some(r) => r,
        None => "done",
    };
    let lower = ascii_lowercase(name);
    let l = lower.as_str();
    if text_is(l, "domcontentloaded") || text_is(l, "dom_content_loaded") {
        Ok(RenderedDomWaitUntil::DomContentLoaded)
    } else if text_is(l, "load") {
        Ok(RenderedDomWaitUntil::Load)
    } else if text_is(l, "networkidle") || text_is(l, "network_idle") {
        Ok(RenderedDomWaitUntil::NetworkIdle)
    } else if text_is(l, "domstable") || text_is(l, "dom_stable") {
        Ok(RenderedDomWaitUntil::DomStable)
    } else if text_is(l, "done") {
        Ok(RenderedDomWaitUntil::Done)
    } else {
        let mut message = "unsupported waitUntil `".to_owned();
        message.append(l);
        message.append("`");
        Err(message)
    }
}

// ---------------------------------------------------------------------------
// Interactive elements

/// Whether an accessibility role is one a user interacts with.
pub open spec fn interactive_role(role: Seq<char>) -> bool {
    role == "button"@ || role == "link"@ || role == "textbox"@ || role == "searchbox"@
        || role == "checkbox"@ || role == "radio"@ || role == "combobox"@ || role == "listbox"@
        || role == "option"@ || role == "menuitem"@ || role == "tab"@ || role == "switch"@
        || role == "slider"@ || role == "spinbutton"@
}

/// Whether an accessibility role is one a user interacts with.
pub fn is_interactive_role(role: &str) -> (interactive: bool)
    ensures
        interactive == interactive_role(role@),
{
    text_is(role, "button") || text_is(role, "link") || text_is(role, "textbox") || text_is(
        role,
        "searchbox",
    ) || text_is(role, "checkbox") || text_is(role, "radio") || text_is(role, "combobox")
        || text_is(role, "listbox") || text_is(role, "option") || text_is(role, "menuitem")
        || text_is(role, "tab") || text_is(role, "switch") || text_is(role, "slider") || text_is(
        role,
        "spinbutton",
    )
}

/// One attribute of a DOM element.
#[derive(Clone, Debug, PartialEq, Eq)]
pub struct DocumentNodeAttribute {
    pub local_name: String,
    pub value: String,
}

/// What the server reads of a DOM node: its local name and attributes.
#[derive(Clone, Debug, PartialEq, Eq)]
pub struct DocumentNodeSnapshot {
    pub local_name: String,
    pub attributes: Vec<DocumentNodeAttribute>,
}

/// Attributes as `(local name, value)` pairs of text.
pub open spec fn attribute_pairs(attributes: Seq<DocumentNodeAttribute>) -> Seq<(Seq<char>, Seq<char>)> {
    attributes.map_values(|a: DocumentNodeAttribute| (a.local_name@, a.value@))
}

/// Whether `i` is the first position of `pairs` whose name is `name`.
pub open spec fn is_first_named(pairs: Seq<(Seq<char>, Seq<char>)>, name: Seq<char>, i: int) -> bool {
    0 <= i < pairs.len() && pairs[i].0 == name && forall|j: int| 0 <= j < i ==> #[trigger] pairs[j].0 != name
}

/// The value of the first pair named `name`, if any.
pub open spec fn first_named_value(pairs: Seq<(Seq<char>, Seq<char>)>, name: Seq<char>) -> Option<Seq<char>> {
    if exists|i: int| is_first_named(pairs, name, i) {
        Some(pairs[choose|i: int| is_first_named(pairs, name, i)].1)
    } else {
        None
    }
}

/// A first named position is unique.
proof fn lemma_first_named_unique(pairs: Seq<(Seq<char>, Seq<char>)>, name: Seq<char>, i: int, k: int)
    requires
        is_first_named(pairs, name, i),
        is_first_named(pairs, name, k),
    ensures
        i == k,
{
    if i < k {
        assert(pairs[i].0 != name);
    } else if k < i {
        assert(pairs[k].0 != name);
    }
}

/// Where no pair is named `name`, there is no first one.
proof fn lemma_no_first_named(pairs: Seq<(Seq<char>, Seq<char>)>, name: Seq<char>)
    requires
        forall|j: int| 0 <= j < pairs.len() ==> #[trigger] pairs[j].0 != name,
    ensures
        first_named_value(pairs, name) is None,
{
}

/// The value of the first attribute of `snapshot` named `name`.
pub fn snapshot_attribute(snapshot: &DocumentNodeSnapshot, name: &str) -> (value: Option<String>)
    ensures
        match value {
            Some(v) => first_named_value(attribute_pairs(snapshot.attributes@), name@) == Some(v@),
            None => first_named_value(attribute_pairs(snapshot.attributes@), name@) is None,
        },
{
    let ghost pairs = attribute_pairs(snapshot.attributes@);
    let mut i: usize = 0;
    while i < snapshot.attributes.len()
        invariant
            i <= snapshot.attributes.len(),
            pairs == attribute_pairs(snapshot.attributes@),
            forall|j: int| 0 <= j < i ==> #[trigger] pairs[j].0 != name@,
        decreases snapshot.attributes.len() - i,
    {
        let attribute = &snapshot.attributes[i];
        if text_is(attribute.local_name.as_str(), name) {
            proof {
                assert(is_first_named(pairs, name@, i as int));
                let k = choose|k: int| is_first_named(pairs, name@, k);
                lemma_first_named_unique(pairs, name@, i as int, k);
            }
            return Some(attribute.value.clone());
        }
        i = i + 1;
    }
    proof {
        lemma_no_first_named(pairs, name@);
    }
    None
}

/// The value of the first `(name, value)` pair named `name`.
pub fn attribute_value_from_pairs(attributes: &[(String, String)], name: &str) -> (value: Option<String>)
    ensures
        match value {
            Some(v) => first_named_value(string_pairs(attributes@), name@) == Some(v@),
            None => first_named_value(string_pairs(attributes@), name@) is None,
        },
{
    let ghost pairs = string_pairs(attributes@);
    let mut i: usize = 0;
    while i < attributes.len()
        invariant
            i <= attributes.len(),
            pairs == string_pairs(attributes@),
            forall|j: int| 0 <= j < i ==> #[trigger] pairs[j].0 != name@,
        decreases attributes.len() - i,
    {
        let pair = &attributes[i];
        if text_is(pair.0.as_str(), name) {
            proof {
                assert(is_first_named(pairs, name@, i as int));
                let k = choose|k: int| is_first_named(pairs, name@, k);
                lemma_first_named_unique(pairs, name@, i as int, k);
            }
            return Some(pair.1.clone());
        }
        i = i + 1;
    }
    proof {
        lemma_no_first_named(pairs, name@);
    }
    None
}

/// String pairs as pairs of text.
pub open spec fn string_pairs(pairs: Seq<(String, String)>) -> Seq<(Seq<char>, Seq<char>)> {
    pairs.map_values(|p: (String, String)| (p.0@, p.1@))
}

/// Whether a node looks interactive by its markup: a link with an `href`, a
/// button, select or textarea, or an input that is not hidden.
pub open spec fn looks_interactive(local_name: Seq<char>, pairs: Seq<(Seq<char>, Seq<char>)>) -> bool {
    if local_name == "a"@ {
        first_named_value(pairs, "href"@) is Some
    } else if local_name == "button"@ || local_name == "select"@ || local_name == "textarea"@ {
        true
    } else if local_name == "input"@ {
        match first_named_value(pairs, "type"@) {
            Some(t) => t != "hidden"@,
            None => "text"@ != "hidden"@,
        }
    } else {
        false
    }
}

/// Whether a node looks interactive by its markup.
pub fn snapshot_looks_interactive(snapshot: &DocumentNodeSnapshot) -> (interactive: bool)
    ensures
        interactive == looks_interactive(snapshot.local_name@, attribute_pairs(snapshot.attributes@)),
{
    let local_name = snapshot.local_name.as_str();
    if text_is(local_name, "a") {
        snapshot_attribute(snapshot, "href").is_some()
    } else if text_is(local_name, "button") || text_is(local_name, "select") || text_is(
        local_name,
        "textarea",
    ) {
        true
    } else if text_is(local_name, "input") {
        let input_type = match snapshot_attribute(snapshot, "type") {
            Some(t) => t,
            None => "text".to_owned(),
        };
        !text_is(input_type.as_str(), "hidden")
    } else {
        false
    }
}

/// An interactive element of the page as the server reports it.
#[derive(Clone, Debug, PartialEq, Eq)]
pub struct InteractiveElement {
    pub backend_node_id: u32,
    pub role: String,
    pub name: String,
    pub value: String,
    pub tag: String,
    pub href: String,
    pub input_type: String,
    pub disabled: bool,
}

/// An optional text, or the empty text.
pub open spec fn text_or_empty(t: Option<Seq<char>>) -> Seq<char> {
    match t {
        Some(s) => s,
        None => Seq::empty(),
    }
}

/// Whether a node with accessibility role `role` and (if known) markup
/// `snapshot` is listed as interactive.
pub open spec fn listed_as_interactive(role: Seq<char>, snapshot: Option<DocumentNodeSnapshot>) -> bool {
    interactive_role(role) || match snapshot {
        Some(s) => looks_interactive(s.local_name@, attribute_pairs(s.attributes@)),
        None => false,
    }
}

/// The value of attribute `name` of an optional snapshot.
pub open spec fn snapshot_value(snapshot: Option<DocumentNodeSnapshot>, name: Seq<char>) -> Option<Seq<char>> {
    match snapshot {
        Some(s) => first_named_value(attribute_pairs(s.attributes@), name),
        None => None,
    }
}

/// The interactive element a node becomes, if it is listed.
pub fn interactive_element(
    backend_node_id: u32,
    role: String,
    name: String,
    value: String,
    snapshot: Option<&DocumentNodeSnapshot>,
) -> (element: Option<InteractiveElement>)
    ensures
        ({
            let snap = match snapshot {
                Some(s) => Some(*s),
                None => None,
            };
            &&& element is Some <==> listed_as_interactive(role@, snap)
            &&& element matches Some(e) ==> {
                &&& e.backend_node_id == backend_node_id
                &&& e.role@ == role@ && e.name@ == name@ && e.value@ == value@
                &&& e.tag@ == (match snap {
                    Some(s) => s.local_name@,
                    None => Seq::empty(),
                })
                &&& e.href@ == text_or_empty(snapshot_value(snap, "href"@))
                &&& e.input_type@ == text_or_empty(snapshot_value(snap, "type"@))
                &&& e.disabled == snapshot_value(snap, "disabled"@) is Some
            }
        }),
{
    let looks = match snapshot {
        Some(s) => snapshot_looks_interactive(s),
        None => false,
    };
    if !is_interactive_role(role.as_str()) && !looks {
        return None;
    }
    let (tag, href, input_type, disabled) = match snapshot {
        Some(s) => {
            let href = match snapshot_attribute(s, "href") {
                Some(h) => h,
                None => String::new(),
            };
            let input_type = match snapshot_attribute(s, "type") {
                Some(t) => t,
                None => String::new(),
            };
            let disabled = snapshot_attribute(s, "disabled").is_some();
            (s.local_name.clone(), href, input_type, disabled)
        },
        None => (String::new(), String::new(), String::new(), false),
    };
    Some(InteractiveElement { backend_node_id, role, name, value, tag, href, input_type, disabled })
}

/// The backend node ids already considered while listing interactive
/// elements.
pub struct InteractiveElementCollector {
    seen: std::collections::HashSet<u32>,
}

impl InteractiveElementCollector {
    /// The ids considered so far.
    pub closed spec fn seen(&self) -> Set<u32> {
        self.seen@
    }

    /// A collector that has considered nothing.
    pub fn new() -> (collector: Self)
        ensures
            collector.seen() == Set::<u32>::empty(),
    {
        InteractiveElementCollector { seen: std::collections::HashSet::new() }
    }

    /// Whether the node `backend_node_id` is to be considered: a node id of
    /// zero (unknown) never is, and each other id only the first time.
    pub fn note_backend_node(&mut self, backend_node_id: u32) -> (first_sighting: bool)
        ensures
            first_sighting == (backend_node_id != 0 && !old(self).seen().contains(backend_node_id)),
            final(self).seen() == (if backend_node_id != 0 {
                old(self).seen().insert(backend_node_id)
            } else {
                old(self).seen()
            }),
    {
        broadcast use vstd::std_specs::hash::group_hash_axioms;
        if backend_node_id == 0 {
            return false;
        }
        self.seen.insert(backend_node_id)
    }
}

/// Whether an element passes the `findElement` filters: its role equals the
/// role filter and its name contains the name filter, both ignoring ASCII
/// case; an absent filter passes everything.
pub open spec fn passes_find_filters(
    element: InteractiveElement,
    role_filter: Option<Seq<char>>,
    name_filter: Option<Seq<char>>,
) -> bool {
    &&& match role_filter {
        Some(r) => ascii_lowercase_of(element.role@) == ascii_lowercase_of(r),
        None => true,
    }
    &&& match name_filter {
        Some(n) => contains_text(ascii_lowercase_of(element.name@), ascii_lowercase_of(n)),
        None => true,
    }
}

/// The predicate of [`passes_find_filters`] for fixed filters.
pub open spec fn find_filter(role_filter: Option<Seq<char>>, name_filter: Option<Seq<char>>) -> spec_fn(InteractiveElement) -> bool {
    |e: InteractiveElement| passes_find_filters(e, role_filter, name_filter)
}

/// An optional string slice, by view.
pub open spec fn opt_str(s: Option<&str>) -> Option<Seq<char>> {
    match s {
        Some(t) => Some(t@),
        None => None,
    }
}

/// The elements that pass the `findElement` filters, in order.
pub fn filter_interactive_elements(
    elements: Vec<InteractiveElement>,
    role: Option<&str>,
    name: Option<&str>,
) -> (matches: Vec<InteractiveElement>)
    ensures
        matches@ == elements@.filter(find_filter(opt_str(role), opt_str(name))),
{
    let role_filter: Option<String> = match role {
        Some(r) => Some(ascii_lowercase(r)),
        None => None,
    };
    let name_filter: Option<String> = match name {
        Some(n) => Some(ascii_lowercase(n)),
        None => None,
    };
    let ghost pred = find_filter(opt_str(role), opt_str(name));
    let mut matches: Vec<InteractiveElement> = Vec::new();
    let mut i: usize = 0;
    while i < elements.len()
        invariant
            i <= elements.len(),
            pred == find_filter(opt_str(role), opt_str(name)),
            role_filter matches Some(r) ==> role matches Some(q) && r@ == ascii_lowercase_of(q@),
            role_filter is None ==> role is None,
            name_filter matches Some(n) ==> name matches Some(q) && n@ == ascii_lowercase_of(q@),
            name_filter is None ==> name is None,
            matches@ == elements@.subrange(0, i as int).filter(pred),
        decreases elements.len() - i,
    {
        let element = &elements[i];
        let role_ok = match &role_filter {
            Some(r) => {
                let candidate = ascii_lowercase(element.role.as_str());
                proof {
                    lemma_ascii_lowercase_idempotent(role.unwrap()@);
                }
                candidate == *r
            },
            None => true,
        };
        let name_ok = match &name_filter {
            Some(n) => {
                let lowered = ascii_lowercase(element.name.as_str());
                text_contains(lowered.as_str(), n.as_str())
            },
            None => true,
        };
        proof {
            assert(elements@.subrange(0, i + 1).drop_last() =~= elements@.subrange(0, i as int));
            assert(elements@.subrange(0, i + 1).last() == elements@[i as int]);
            reveal(Seq::filter);
            assert((role_ok && name_ok) == pred(elements@[i as int]));
        }
        if role_ok && name_ok {
            matches.push(copy_element(element));
        }
        i = i + 1;
    }
    proof {
        assert(elements@.subrange(0, elements@.len() as int) =~= elements@);
    }
    matches
}

/// A copy of `element`.
fn copy_element(element: &InteractiveElement) -> (copy: InteractiveElement)
    ensures
        copy == *element,
{
    InteractiveElement {
        backend_node_id: element.backend_node_id,
        role: element.role.clone(),
        name: element.name.clone(),
        value: element.value.clone(),
        tag: element.tag.clone(),
        href: element.href.clone(),
        input_type: element.input_type.clone(),
        disabled: element.disabled,
    }
}

/// Lower-casing ASCII twice is lower-casing it once.
pub proof fn lemma_ascii_lowercase_idempotent(s: Seq<char>)
    ensures
        ascii_lowercase_of(ascii_lowercase_of(s)) == ascii_lowercase_of(s),
{
    assert(ascii_lowercase_of(ascii_lowercase_of(s)) =~= ascii_lowercase_of(s));
}

// ---------------------------------------------------------------------------
// Requests

/// What the server does with one request.
#[derive(Clone, Debug, PartialEq, Eq)]
pub enum McpRequestRoute {
    /// Send no response (a notification, or a request without a method).
    NoResponse,
    /// Answer with the protocol version, capabilities and server info.
    Initialize,
    /// Answer with an empty result.
    Ping,
    /// Answer with the tool table.
    ListTools,
    /// Answer with the resource table.
    ListResources,
    /// Read a resource.
    ReadResource,
    /// Call a tool.
    CallTool,
    /// Answer with a method-not-found error carrying `message`.
    MethodNotFound { message: String },
}

/// The route of a known method name.
pub open spec fn route_for_method(method: Seq<char>) -> Option<McpRequestRoute> {
    if method == "initialize"@ {
        Some(McpRequestRoute::Initialize)
    } else if method == "notifications/initialized"@ {
        Some(McpRequestRoute::NoResponse)
    } else if method == "ping"@ {
        Some(McpRequestRoute::Ping)
    } else if method == "tools/list"@ {
        Some(McpRequestRoute::ListTools)
    } else if method == "resources/list"@ {
        Some(McpRequestRoute::ListResources)
    } else if method == "resources/read"@ {
        Some(McpRequestRoute::ReadResource)
    } else if method == "tools/call"@ {
        Some(McpRequestRoute::CallTool)
    } else {
        None
    }
}

/// Routes a request by its `method` (absent where the request has none, or
/// it is not a string).
pub fn route_mcp_request(method: Option<&str>) -> (route: McpRequestRoute)
    ensures
        match method {
            None => route == McpRequestRoute::NoResponse,
            Some(m) => match route_for_method(m@) {
                Some(r) => route == r,
                None => route matches McpRequestRoute::MethodNotFound { message }
                    && message@ == "method `"@ + m@ + "` not found"@,
            },
        },
{
    let m = match method {
        None => return McpRequestRoute::NoResponse,
        Some(m) => m,
    };
    if text_is(m, "initialize") {
        McpRequestRoute::Initialize
    } else if text_is(m, "notifications/initialized") {
        McpRequestRoute::NoResponse
    } else if text_is(m, "ping") {
        McpRequestRoute::Ping
    } else if text_is(m, "tools/list") {
        McpRequestRoute::ListTools
    } else if text_is(m, "resources/list") {
        McpRequestRoute::ListResources
    } else if text_is(m, "resources/read") {
        McpRequestRoute::ReadResource
    } else if text_is(m, "tools/call") {
        McpRequestRoute::CallTool
    } else {
        let mut message = "method `".to_owned();
        message.append(m);
        message.append("` not found");
        McpRequestRoute::MethodNotFound { message }
    }
}

/// The reply to one request, with the result payload of type `R`.
#[derive(Clone, Debug, PartialEq, Eq)]
pub enum McpReply<R> {
    /// A JSON-RPC result.
    Success(R),
    /// A successful JSON-RPC result that reports a failed tool call.
    ToolFailure(String),
    /// A JSON-RPC error.
    Failure { code: i64, message: String },
}

/// The reply to a resource read: its contents, or a server error.
pub fn resource_read_reply<R>(outcome: Result<R, String>) -> (reply: McpReply<R>)
    ensures
        match outcome {
            Ok(r) => reply == McpReply::Success(r),
            Err(e) => reply == McpReply::<R>::Failure { code: MCP_SERVER_ERROR, message: e },
        },
{
    match outcome {
        Ok(r) => McpReply::Success(r),
        Err(e) => McpReply::Failure { code: MCP_SERVER_ERROR, message: e },
    }
}

/// The reply to a tool call: its result, or a tool failure (which is still a
/// JSON-RPC success).
pub fn tool_call_reply<R>(outcome: Result<R, String>) -> (reply: McpReply<R>)
    ensures
        match outcome {
            Ok(r) => reply == McpReply::Success(r),
            Err(e) => reply == McpReply::<R>::ToolFailure(e),
        },
{
    match outcome {
        Ok(r) => McpReply::Success(r),
        Err(e) => McpReply::ToolFailure(e),
    }
}

/// The reply to a request that is not valid JSON.
pub fn parse_error_reply<R>(detail: &str) -> (reply: McpReply<R>)
    ensures
        reply matches McpReply::Failure { code, message } && code == MCP_PARSE_ERROR
            && message@ == "parse error: "@ + detail@,
{
    let mut message = "parse error: ".to_owned();
    message.append(detail);
    McpReply::Failure { code: MCP_PARSE_ERROR, message }
}

/// What a successful reply carries.
#[derive(Clone, Debug, PartialEq, Eq)]
pub enum McpResult<R> {
    /// The `initialize` result: protocol version, capabilities, server info.
    Initialize,
    /// The empty object (`ping`).
    Empty,
    /// The tool table (`tools/list`).
    Tools,
    /// The resource table (`resources/list`).
    Resources,
    /// The contents of one resource (`resources/read`).
    ResourceContents(McpResourceContents),
    /// A tool's own result (`tools/call`).
    Tool(R),
}

/// The one content entry of a resource read.
#[derive(Clone, Debug, PartialEq, Eq)]
pub struct McpResourceContents {
    pub uri: String,
    pub mime_type: &'static str,
    pub text: String,
}

/// A JSON-RPC response: the request's id, echoed, and the reply.
#[derive(Clone, Debug, PartialEq, Eq)]
pub struct McpResponse<I, R> {
    pub id: I,
    pub reply: McpReply<McpResult<R>>,
}

/// What the server does with one request.
#[derive(Clone, Debug, PartialEq, Eq)]
pub enum McpRequestStep<I, R> {
    /// Nothing is answered (a notification, or a request without a method).
    Silent,
    /// This response is answered at once.
    Respond(McpResponse<I, R>),
    /// The resource read is performed, then `finish_resource_read` answers.
    ReadResource { id: I },
    /// The tool call is performed, then `finish_tool_call` answers.
    CallTool { id: I },
}

/// Whether `reply` is the JSON-RPC error `code` with `message`.
pub open spec fn is_failure_with<R>(reply: McpReply<R>, code: i64, message: Seq<char>) -> bool {
    reply matches McpReply::Failure { code: c, message: m } && c == code && m@ == message
}

/// The step for a request with `id` and `method`.
pub open spec fn request_step_for<I, R>(id: I, method: Option<Seq<char>>) -> McpRequestStep<I, R> {
    match method {
        None => McpRequestStep::Silent,
        Some(m) => match route_for_method(m) {
            Some(McpRequestRoute::NoResponse) => McpRequestStep::Silent,
            Some(McpRequestRoute::Initialize) => McpRequestStep::Respond(
                McpResponse { id, reply: McpReply::Success(McpResult::Initialize) },
            ),
            Some(McpRequestRoute::Ping) => McpRequestStep::Respond(
                McpResponse { id, reply: McpReply::Success(McpResult::Empty) },
            ),
            Some(McpRequestRoute::ListTools) => McpRequestStep::Respond(
                McpResponse { id, reply: McpReply::Success(McpResult::Tools) },
            ),
            Some(McpRequestRoute::ListResources) => McpRequestStep::Respond(
                McpResponse { id, reply: McpReply::Success(McpResult::Resources) },
            ),
            Some(McpRequestRoute::ReadResource) => McpRequestStep::ReadResource { id },
            Some(McpRequestRoute::CallTool) => McpRequestStep::CallTool { id },
            _ => McpRequestStep::Silent,
        },
    }
}

/// Handles a request with `id` and `method` (absent where the request has
/// none, or it is not a string): the answer, or the work to do first.  An
/// unknown method is answered with the method-not-found error; every
/// response echoes `id`.
pub fn mcp_request_step<I, R>(id: I, method: Option<&str>) -> (step: McpRequestStep<I, R>)
    ensures
        match method {
            None => step == McpRequestStep::<I, R>::Silent,
            Some(m) => match route_for_method(m@) {
                Some(_) => step == request_step_for::<I, R>(id, Some(m@)),
                None => step matches McpRequestStep::Respond(r) && r.id == id && is_failure_with(
                    r.reply,
                    MCP_METHOD_NOT_FOUND,
                    "method `"@ + m@ + "` not found"@,
                ),
            },
        },
{
    match route_mcp_request(method) {
        McpRequestRoute::NoResponse => McpRequestStep::Silent,
        McpRequestRoute::Initialize => McpRequestStep::Respond(
            McpResponse { id, reply: McpReply::Success(McpResult::Initialize) },
        ),
        McpRequestRoute::Ping => McpRequestStep::Respond(McpResponse { id, reply: McpReply::Success(McpResult::Empty) }),
        McpRequestRoute::ListTools => McpRequestStep::Respond(
            McpResponse { id, reply: McpReply::Success(McpResult::Tools) },
        ),
        McpRequestRoute::ListResources => McpRequestStep::Respond(
            McpResponse { id, reply: McpReply::Success(McpResult::Resources) },
        ),
        McpRequestRoute::ReadResource => McpRequestStep::ReadResource { id },
        McpRequestRoute::CallTool => McpRequestStep::CallTool { id },
        McpRequestRoute::MethodNotFound { message } => McpRequestStep::Respond(
            McpResponse { id, reply: McpReply::Failure { code: MCP_METHOD_NOT_FOUND, message } },
        ),
    }
}

/// What a `resources/read` request reads, checked in this order: its
/// params name a `uri` string, a page is loaded, the URI names a resource.
pub fn resource_read_request(uri: Option<String>, page_loaded: bool) -> (request: Result<(String, McpResource), String>)
    ensures
        match uri {
            None => request matches Err(e) && e@ == "invalid resources/read params"@,
            Some(u) => if !page_loaded {
                request matches Err(e) && e@ == "page not loaded"@
            } else {
                match resource_named(u@) {
                    Some(r) => request matches Ok((v, res)) && v@ == u@ && res == r,
                    None => request matches Err(e) && e@ == "resource `"@ + u@ + "` not found"@,
                }
            },
        },
{
    let uri = match uri {
        None => return Err("invalid resources/read params".to_owned()),
        Some(u) => u,
    };
    if !page_loaded {
        return Err("page not loaded".to_owned());
    }
    match route_resource_read(uri.as_str()) {
        Ok(resource) => Ok((uri, resource)),
        Err(e) => Err(e),
    }
}

/// The contents entry of `resource` read at `uri`: the URI as asked, the
/// resource's MIME type and the rendered text.
pub fn resource_contents(uri: String, resource: McpResource, text: String) -> (contents: McpResourceContents)
    ensures
        contents.uri == uri,
        contents.mime_type@ == resource_mime_type_of(resource),
        contents.text == text,
{
    McpResourceContents { uri, mime_type: resource_mime_type(resource), text }
}

/// The response to a resource read with `id`: its contents, or a server
/// error with the read's message.
pub fn finish_resource_read<I, R>(id: I, outcome: Result<McpResourceContents, String>) -> (response: McpResponse<I, R>)
    ensures
        response.id == id,
        match outcome {
            Ok(c) => response.reply == McpReply::Success(McpResult::<R>::ResourceContents(c)),
            Err(e) => response.reply == McpReply::<McpResult<R>>::Failure { code: MCP_SERVER_ERROR, message: e },
        },
{
    let outcome = match outcome {
        Ok(c) => Ok(McpResult::ResourceContents(c)),
        Err(e) => Err(e),
    };
    McpResponse { id, reply: resource_read_reply(outcome) }
}

/// The response to a tool call with `id`: the tool's result, or a tool
/// failure (still a JSON-RPC success) with its message.
pub fn finish_tool_call<I, R>(id: I, outcome: Result<R, String>) -> (response: McpResponse<I, R>)
    ensures
        response.id == id,
        match outcome {
            Ok(r) => response.reply == McpReply::Success(McpResult::Tool(r)),
            Err(e) => response.reply == McpReply::<McpResult<R>>::ToolFailure(e),
        },
{
    let outcome = match outcome {
        Ok(r) => Ok(McpResult::Tool(r)),
        Err(e) => Err(e),
    };
    McpResponse { id, reply: tool_call_reply(outcome) }
}

// ---------------------------------------------------------------------------
// Tools and resources

/// A tool the server offers.
#[derive(Clone, Copy, Debug, PartialEq, Eq, Hash, Structural)]
pub enum McpTool {
    Goto,
    Markdown,
    Links,
    Evaluate,
    SemanticTree,
    NodeDetails,
    InteractiveElements,
    FindElement,
    WaitForSelector,
    Click,
    Fill,
    Press,
    Hover,
    Scroll,
    SelectOption,
    SetChecked,
}

/// The tool a name calls, if any (`navigate` is `goto`, `eval` is
/// `evaluate`).
pub open spec fn tool_named(name: Seq<char>) -> Option<McpTool> {
    if name == "goto"@ || name == "navigate"@ {
        Some(McpTool::Goto)
    } else if name == "markdown"@ {
        Some(McpTool::Markdown)
    } else if name == "links"@ {
        Some(McpTool::Links)
    } else if name == "evaluate"@ || name == "eval"@ {
        Some(McpTool::Evaluate)
    } else if name == "semantic_tree"@ {
        Some(McpTool::SemanticTree)
    } else if name == "nodeDetails"@ {
        Some(McpTool::NodeDetails)
    } else if name == "interactiveElements"@ {
        Some(McpTool::InteractiveElements)
    } else if name == "findElement"@ {
        Some(McpTool::FindElement)
    } else if name == "waitForSelector"@ {
        Some(McpTool::WaitForSelector)
    } else if name == "click"@ {
        Some(McpTool::Click)
    } else if name == "fill"@ {
        Some(McpTool::Fill)
    } else if name == "press"@ {
        Some(McpTool::Press)
    } else if name == "hover"@ {
        Some(McpTool::Hover)
    } else if name == "scroll"@ {
        Some(McpTool::Scroll)
    } else if name == "selectOption"@ {
        Some(McpTool::SelectOption)
    } else if name == "setChecked"@ {
        Some(McpTool::SetChecked)
    } else {
        None
    }
}

/// The tool a `tools/call` request names, or the error for an unknown name.
pub fn route_tool_call(name: &str) -> (tool: Result<McpTool, String>)
    ensures
        match tool_named(name@) {
            Some(t) => tool == Ok::<McpTool, String>(t),
            None => tool is Err && tool->Err_0@ == "tool `"@ + name@ + "` not found"@,
        },
{
    if text_is(name, "goto") || text_is(name, "navigate") {
        Ok(McpTool::Goto)
    } else if text_is(name, "markdown") {
        Ok(McpTool::Markdown)
    } else if text_is(name, "links") {
        Ok(McpTool::Links)
    } else if text_is(name, "evaluate") || text_is(name, "eval") {
        Ok(McpTool::Evaluate)
    } else if text_is(name, "semantic_tree") {
        Ok(McpTool::SemanticTree)
    } else if text_is(name, "nodeDetails") {
        Ok(McpTool::NodeDetails)
    } else if text_is(name, "interactiveElements") {
        Ok(McpTool::InteractiveElements)
    } else if text_is(name, "findElement") {
        Ok(McpTool::FindElement)
    } else if text_is(name, "waitForSelector") {
        Ok(McpTool::WaitForSelector)
    } else if text_is(name, "click") {
        Ok(McpTool::Click)
    } else if text_is(name, "fill") {
        Ok(McpTool::Fill)
    } else if text_is(name, "press") {
        Ok(McpTool::Press)
    } else if text_is(name, "hover") {
        Ok(McpTool::Hover)
    } else if text_is(name, "scroll") {
        Ok(McpTool::Scroll)
    } else if text_is(name, "selectOption") {
        Ok(McpTool::SelectOption)
    } else if text_is(name, "setChecked") {
        Ok(McpTool::SetChecked)
    } else {
        let mut message = "tool `".to_owned();
        message.append(name);
        message.append("` not found");
        Err(message)
    }
}

/// A page resource the server offers.
#[derive(Clone, Copy, Debug, PartialEq, Eq, Hash, Structural)]
pub enum McpResource {
    PageHtml,
    PageMarkdown,
}

/// The resource a URI names, if any.
pub open spec fn resource_named(uri: Seq<char>) -> Option<McpResource> {
    if uri == "mcp://page/html"@ {
        Some(McpResource::PageHtml)
    } else if uri == "mcp://page/markdown"@ {
        Some(McpResource::PageMarkdown)
    } else {
        None
    }
}

/// The resource a `resources/read` request names, or the error for an
/// unknown URI.
pub fn route_resource_read(uri: &str) -> (resource: Result<McpResource, String>)
    ensures
        match resource_named(uri@) {
            Some(r) => resource == Ok::<McpResource, String>(r),
            None => resource is Err && resource->Err_0@ == "resource `"@ + uri@ + "` not found"@,
        },
{
    if text_is(uri, "mcp://page/html") {
        Ok(McpResource::PageHtml)
    } else if text_is(uri, "mcp://page/markdown") {
        Ok(McpResource::PageMarkdown)
    } else {
        let mut message = "resource `".to_owned();
        message.append(uri);
        message.append("` not found");
        Err(message)
    }
}

/// The MIME type of a resource.
pub open spec fn resource_mime_type_of(resource: McpResource) -> Seq<char> {
    match resource {
        McpResource::PageHtml => "text/html"@,
        McpResource::PageMarkdown => "text/markdown"@,
    }
}

/// The MIME type of a resource's contents.
pub fn resource_mime_type(resource: McpResource) -> (mime_type: &'static str)
    ensures
        mime_type@ == resource_mime_type_of(resource),
{
    match resource {
        McpResource::PageHtml => "text/html",
        McpResource::PageMarkdown => "text/markdown",
    }
}

/// One entry of the resource table.
#[derive(Clone, Copy, Debug, PartialEq, Eq)]
pub struct McpResourceDescriptor {
    pub uri: &'static str,
    pub name: &'static str,
    pub description: &'static str,
    pub mime_type: &'static str,
}

/// An entry of the resource table, as text.
pub open spec fn resource_descriptor_view(d: McpResourceDescriptor) -> (Seq<char>, Seq<char>, Seq<char>, Seq<char>) {
    (d.uri@, d.name@, d.description@, d.mime_type@)
}

/// The resource table.
pub open spec fn resource_table() -> Seq<(Seq<char>, Seq<char>, Seq<char>, Seq<char>)> {
    seq![
        ("mcp://page/html"@, "Page HTML"@, "Serialized HTML of the current page"@, "text/html"@),
        ("mcp://page/markdown"@, "Page Markdown"@, "Markdown representation of the current page"@, "text/markdown"@),
    ]
}

/// The resources the server offers.
pub fn resource_list() -> (resources: Vec<McpResourceDescriptor>)
    ensures
        resources@.map_values(|d: McpResourceDescriptor| resource_descriptor_view(d)) == resource_table(),
{
    let mut resources: Vec<McpResourceDescriptor> = Vec::new();
    resources.push(
        McpResourceDescriptor {
            uri: "mcp://page/html",
            name: "Page HTML",
            description: "Serialized HTML of the current page",
            mime_type: "text/html",
        },
    );
    resources.push(
        McpResourceDescriptor {
            uri: "mcp://page/markdown",
            name: "Page Markdown",
            description: "Markdown representation of the current page",
            mime_type: "text/markdown",
        },
    );
    assert(resources@.map_values(|d: McpResourceDescriptor| resource_descriptor_view(d)) =~= resource_table());
    resources
}

/// The JSON type of a tool argument.
#[derive(Clone, Copy, Debug, PartialEq, Eq, Hash, Structural)]
pub enum McpSchemaKind {
    String,
    Integer,
    Boolean,
    /// A string naming one of the advertised wait strategies.
    WaitUntil,
}

/// One argument of a tool's input schema.
#[derive(Clone, Copy, Debug, PartialEq, Eq)]
pub struct McpSchemaProperty {
    pub name: &'static str,
    pub kind: McpSchemaKind,
    pub description: Option<&'static str>,
}

/// The input schema of a tool: an object with these properties, of which
/// the `required` ones must be present (no `required` list where it is
/// empty).
#[derive(Clone, Debug, PartialEq, Eq)]
pub struct McpToolSchema {
    pub properties: Vec<McpSchemaProperty>,
    pub required: Vec<&'static str>,
}

/// One entry of the tool table.
#[derive(Clone, Debug, PartialEq, Eq)]
pub struct McpToolDescriptor {
    pub name: &'static str,
    pub description: &'static str,
    pub input_schema: McpToolSchema,
}

/// A schema property, as text.
pub open spec fn property_view(p: McpSchemaProperty) -> (Seq<char>, McpSchemaKind, Option<Seq<char>>) {
    (p.name@, p.kind, match p.description {
        Some(d) => Some(d@),
        None => None,
    })
}

/// A schema, as text.
pub open spec fn schema_view(s: McpToolSchema) -> (Seq<(Seq<char>, McpSchemaKind, Option<Seq<char>>)>, Seq<Seq<char>>) {
    (s.properties@.map_values(|p: McpSchemaProperty| property_view(p)), s.required@.map_values(|r: &'static str| r@))
}

/// A tool table entry, as text.
pub open spec fn tool_descriptor_view(d: McpToolDescriptor) -> (Seq<char>, Seq<char>, (Seq<(Seq<char>, McpSchemaKind, Option<Seq<char>>)>, Seq<Seq<char>>)) {
    (d.name@, d.description@, schema_view(d.input_schema))
}

/// The wait strategies the tool schemas advertise.
pub open spec fn advertised_wait_until_choices() -> Seq<Seq<char>> {
    seq!["domcontentloaded"@, "load"@, "networkidle"@, "done"@]
}

/// The wait strategies the tool schemas advertise, in order.
pub fn wait_until_choices() -> (choices: Vec<&'static str>)
    ensures
        choices@.map_values(|c: &'static str| c@) == advertised_wait_until_choices(),
{
    let choices: Vec<&'static str> = vec!["domcontentloaded", "load", "networkidle", "done"];
    assert(choices@.map_values(|c: &'static str| c@) =~= advertised_wait_until_choices());
    choices
}

/// The schema of the tools that may navigate first: `url`, `timeout` and
/// `waitUntil`, none required.
pub open spec fn url_schema() -> (Seq<(Seq<char>, McpSchemaKind, Option<Seq<char>>)>, Seq<Seq<char>>) {
    (seq![("url"@, McpSchemaKind::String, None), ("timeout"@, McpSchemaKind::Integer, None), ("waitUntil"@, McpSchemaKind::WaitUntil, None)], Seq::empty())
}

/// The input schema of the tools that may navigate first.
pub fn url_tool_schema() -> (schema: McpToolSchema)
    ensures
        schema_view(schema) == url_schema(),
{
    let properties: Vec<McpSchemaProperty> = vec![McpSchemaProperty { name: "url", kind: McpSchemaKind::String, description: None }, McpSchemaProperty { name: "timeout", kind: McpSchemaKind::Integer, description: None }, McpSchemaProperty { name: "waitUntil", kind: McpSchemaKind::WaitUntil, description: None }];
    let required: Vec<&'static str> = Vec::new();
    let schema = McpToolSchema { properties, required };
    assert(schema_view(schema).0 =~= url_schema().0);
    assert(schema_view(schema).1 =~= url_schema().1);
    schema
}

/// The `goto` entry of the tool table.
pub open spec fn goto_tool_entry() -> (Seq<char>, Seq<char>, (Seq<(Seq<char>, McpSchemaKind, Option<Seq<char>>)>, Seq<Seq<char>>)) {
    ("goto"@, "Navigate to a URL and keep the page loaded for later MCP calls."@, (seq![("url"@, McpSchemaKind::String, None), ("timeout"@, McpSchemaKind::Integer, Some("Timeout in milliseconds. Defaults to 10000."@)), ("waitUntil"@, McpSchemaKind::WaitUntil, Some("Wait strategy. Defaults to done."@))], seq!["url"@]))
}

/// The `goto` entry of the tool table.
fn goto_tool() -> (descriptor: McpToolDescriptor)
    ensures
        tool_descriptor_view(descriptor) == goto_tool_entry(),
{
    let properties: Vec<McpSchemaProperty> = vec![McpSchemaProperty { name: "url", kind: McpSchemaKind::String, description: None }, McpSchemaProperty { name: "timeout", kind: McpSchemaKind::Integer, description: Some("Timeout in milliseconds. Defaults to 10000.") }, McpSchemaProperty { name: "waitUntil", kind: McpSchemaKind::WaitUntil, description: Some("Wait strategy. Defaults to done.") }];
    let required: Vec<&'static str> = vec!["url"];
    let descriptor = McpToolDescriptor { name: "goto", description: "Navigate to a URL and keep the page loaded for later MCP calls.", input_schema: McpToolSchema { properties, required } };
    assert(schema_view(descriptor.input_schema).0 =~= goto_tool_entry().2.0);
    assert(schema_view(descriptor.input_schema).1 =~= goto_tool_entry().2.1);
    descriptor
}

/// The `navigate` entry of the tool table.
pub open spec fn navigate_tool_entry() -> (Seq<char>, Seq<char>, (Seq<(Seq<char>, McpSchemaKind, Option<Seq<char>>)>, Seq<Seq<char>>)) {
    ("navigate"@, "Alias for goto."@, (seq![("url"@, McpSchemaKind::String, None), ("timeout"@, McpSchemaKind::Integer, None), ("waitUntil"@, McpSchemaKind::WaitUntil, None)], seq!["url"@]))
}

/// The `navigate` entry of the tool table.
fn navigate_tool() -> (descriptor: McpToolDescriptor)
    ensures
        tool_descriptor_view(descriptor) == navigate_tool_entry(),
{
    let properties: Vec<McpSchemaProperty> = vec![McpSchemaProperty { name: "url", kind: McpSchemaKind::String, description: None }, McpSchemaProperty { name: "timeout", kind: McpSchemaKind::Integer, description: None }, McpSchemaProperty { name: "waitUntil", kind: McpSchemaKind::WaitUntil, description: None }];
    let required: Vec<&'static str> = vec!["url"];
    let descriptor = McpToolDescriptor { name: "navigate", description: "Alias for goto.", input_schema: McpToolSchema { properties, required } };
    assert(schema_view(descriptor.input_schema).0 =~= navigate_tool_entry().2.0);
    assert(schema_view(descriptor.input_schema).1 =~= navigate_tool_entry().2.1);
    descriptor
}

/// The `markdown` entry of the tool table.
pub open spec fn markdown_tool_entry() -> (Seq<char>, Seq<char>, (Seq<(Seq<char>, McpSchemaKind, Option<Seq<char>>)>, Seq<Seq<char>>)) {
    ("markdown"@, "Return the current page as markdown. Optionally navigate first."@, url_schema())
}

/// The `markdown` entry of the tool table.
fn markdown_tool() -> (descriptor: McpToolDescriptor)
    ensures
        tool_descriptor_view(descriptor) == markdown_tool_entry(),
{
    McpToolDescriptor { name: "markdown", description: "Return the current page as markdown. Optionally navigate first.", input_schema: url_tool_schema() }
}

/// The `links` entry of the tool table.
pub open spec fn links_tool_entry() -> (Seq<char>, Seq<char>, (Seq<(Seq<char>, McpSchemaKind, Option<Seq<char>>)>, Seq<Seq<char>>)) {
    ("links"@, "Extract anchors from the current page. Optionally navigate first."@, url_schema())
}

/// The `links` entry of the tool table.
fn links_tool() -> (descriptor: McpToolDescriptor)
    ensures
        tool_descriptor_view(descriptor) == links_tool_entry(),
{
    McpToolDescriptor { name: "links", description: "Extract anchors from the current page. Optionally navigate first.", input_schema: url_tool_schema() }
}

/// The `evaluate` entry of the tool table.
pub open spec fn evaluate_tool_entry() -> (Seq<char>, Seq<char>, (Seq<(Seq<char>, McpSchemaKind, Option<Seq<char>>)>, Seq<Seq<char>>)) {
    ("evaluate"@, "Evaluate a JavaScript expression in the page context. Optionally navigate first."@, (seq![("script"@, McpSchemaKind::String, None), ("url"@, McpSchemaKind::String, None), ("timeout"@, McpSchemaKind::Integer, None), ("waitUntil"@, McpSchemaKind::WaitUntil, None)], seq!["script"@]))
}

/// The `evaluate` entry of the tool table.
fn evaluate_tool() -> (descriptor: McpToolDescriptor)
    ensures
        tool_descriptor_view(descriptor) == evaluate_tool_entry(),
{
    let properties: Vec<McpSchemaProperty> = vec![McpSchemaProperty { name: "script", kind: McpSchemaKind::String, description: None }, McpSchemaProperty { name: "url", kind: McpSchemaKind::String, description: None }, McpSchemaProperty { name: "timeout", kind: McpSchemaKind::Integer, description: None }, McpSchemaProperty { name: "waitUntil", kind: McpSchemaKind::WaitUntil, description: None }];
    let required: Vec<&'static str> = vec!["script"];
    let descriptor = McpToolDescriptor { name: "evaluate", description: "Evaluate a JavaScript expression in the page context. Optionally navigate first.", input_schema: McpToolSchema { properties, required } };
    assert(schema_view(descriptor.input_schema).0 =~= evaluate_tool_entry().2.0);
    assert(schema_view(descriptor.input_schema).1 =~= evaluate_tool_entry().2.1);
    descriptor
}

/// The `eval` entry of the tool table.
pub open spec fn eval_tool_entry() -> (Seq<char>, Seq<char>, (Seq<(Seq<char>, McpSchemaKind, Option<Seq<char>>)>, Seq<Seq<char>>)) {
    ("eval"@, "Alias for evaluate."@, (seq![("script"@, McpSchemaKind::String, None), ("url"@, McpSchemaKind::String, None), ("timeout"@, McpSchemaKind::Integer, None), ("waitUntil"@, McpSchemaKind::WaitUntil, None)], seq!["script"@]))
}

/// The `eval` entry of the tool table.
fn eval_tool() -> (descriptor: McpToolDescriptor)
    ensures
        tool_descriptor_view(descriptor) == eval_tool_entry(),
{
    let properties: Vec<McpSchemaProperty> = vec![McpSchemaProperty { name: "script", kind: McpSchemaKind::String, description: None }, McpSchemaProperty { name: "url", kind: McpSchemaKind::String, description: None }, McpSchemaProperty { name: "timeout", kind: McpSchemaKind::Integer, description: None }, McpSchemaProperty { name: "waitUntil", kind: McpSchemaKind::WaitUntil, description: None }];
    let required: Vec<&'static str> = vec!["script"];
    let descriptor = McpToolDescriptor { name: "eval", description: "Alias for evaluate.", input_schema: McpToolSchema { properties, required } };
    assert(schema_view(descriptor.input_schema).0 =~= eval_tool_entry().2.0);
    assert(schema_view(descriptor.input_schema).1 =~= eval_tool_entry().2.1);
    descriptor
}

/// The `semantic_tree` entry of the tool table.
pub open spec fn semantic_tree_tool_entry() -> (Seq<char>, Seq<char>, (Seq<(Seq<char>, McpSchemaKind, Option<Seq<char>>)>, Seq<Seq<char>>)) {
    ("semantic_tree"@, "Return a text semantic tree for the current page, with structured payloads attached."@, (seq![("url"@, McpSchemaKind::String, None), ("timeout"@, McpSchemaKind::Integer, None), ("waitUntil"@, McpSchemaKind::WaitUntil, None), ("backendNodeId"@, McpSchemaKind::Integer, None), ("maxDepth"@, McpSchemaKind::Integer, None)], seq![]))
}

/// The `semantic_tree` entry of the tool table.
fn semantic_tree_tool() -> (descriptor: McpToolDescriptor)
    ensures
        tool_descriptor_view(descriptor) == semantic_tree_tool_entry(),
{
    let properties: Vec<McpSchemaProperty> = vec![McpSchemaProperty { name: "url", kind: McpSchemaKind::String, description: None }, McpSchemaProperty { name: "timeout", kind: McpSchemaKind::Integer, description: None }, McpSchemaProperty { name: "waitUntil", kind: McpSchemaKind::WaitUntil, description: None }, McpSchemaProperty { name: "backendNodeId", kind: McpSchemaKind::Integer, description: None }, McpSchemaProperty { name: "maxDepth", kind: McpSchemaKind::Integer, description: None }];
    let required: Vec<&'static str> = vec![];
    let descriptor = McpToolDescriptor { name: "semantic_tree", description: "Return a text semantic tree for the current page, with structured payloads attached.", input_schema: McpToolSchema { properties, required } };
    assert(schema_view(descriptor.input_schema).0 =~= semantic_tree_tool_entry().2.0);
    assert(schema_view(descriptor.input_schema).1 =~= semantic_tree_tool_entry().2.1);
    descriptor
}

/// The `nodeDetails` entry of the tool table.
pub open spec fn node_details_tool_entry() -> (Seq<char>, Seq<char>, (Seq<(Seq<char>, McpSchemaKind, Option<Seq<char>>)>, Seq<Seq<char>>)) {
    ("nodeDetails"@, "Inspect a specific backend node ID and return useful element details."@, (seq![("backendNodeId"@, McpSchemaKind::Integer, None)], seq!["backendNodeId"@]))
}

/// The `nodeDetails` entry of the tool table.
fn node_details_tool() -> (descriptor: McpToolDescriptor)
    ensures
        tool_descriptor_view(descriptor) == node_details_tool_entry(),
{
    let properties: Vec<McpSchemaProperty> = vec![McpSchemaProperty { name: "backendNodeId", kind: McpSchemaKind::Integer, description: None }];
    let required: Vec<&'static str> = vec!["backendNodeId"];
    let descriptor = McpToolDescriptor { name: "nodeDetails", description: "Inspect a specific backend node ID and return useful element details.", input_schema: McpToolSchema { properties, required } };
    assert(schema_view(descriptor.input_schema).0 =~= node_details_tool_entry().2.0);
    assert(schema_view(descriptor.input_schema).1 =~= node_details_tool_entry().2.1);
    descriptor
}

/// The `interactiveElements` entry of the tool table.
pub open spec fn interactive_elements_tool_entry() -> (Seq<char>, Seq<char>, (Seq<(Seq<char>, McpSchemaKind, Option<Seq<char>>)>, Seq<Seq<char>>)) {
    ("interactiveElements"@, "List interactive elements discovered from the accessibility tree. Optionally navigate first."@, url_schema())
}

/// The `interactiveElements` entry of the tool table.
fn interactive_elements_tool() -> (descriptor: McpToolDescriptor)
    ensures
        tool_descriptor_view(descriptor) == interactive_elements_tool_entry(),
{
    McpToolDescriptor { name: "interactiveElements", description: "List interactive elements discovered from the accessibility tree. Optionally navigate first.", input_schema: url_tool_schema() }
}

/// The `findElement` entry of the tool table.
pub open spec fn find_element_tool_entry() -> (Seq<char>, Seq<char>, (Seq<(Seq<char>, McpSchemaKind, Option<Seq<char>>)>, Seq<Seq<char>>)) {
    ("findElement"@, "Filter interactive elements by role and/or accessible name on the current page."@, (seq![("role"@, McpSchemaKind::String, None), ("name"@, McpSchemaKind::String, None)], seq![]))
}

/// The `findElement` entry of the tool table.
fn find_element_tool() -> (descriptor: McpToolDescriptor)
    ensures
        tool_descriptor_view(descriptor) == find_element_tool_entry(),
{
    let properties: Vec<McpSchemaProperty> = vec![McpSchemaProperty { name: "role", kind: McpSchemaKind::String, description: None }, McpSchemaProperty { name: "name", kind: McpSchemaKind::String, description: None }];
    let required: Vec<&'static str> = vec![];
    let descriptor = McpToolDescriptor { name: "findElement", description: "Filter interactive elements by role and/or accessible name on the current page.", input_schema: McpToolSchema { properties, required } };
    assert(schema_view(descriptor.input_schema).0 =~= find_element_tool_entry().2.0);
    assert(schema_view(descriptor.input_schema).1 =~= find_element_tool_entry().2.1);
    descriptor
}

/// The `waitForSelector` entry of the tool table.
pub open spec fn wait_for_selector_tool_entry() -> (Seq<char>, Seq<char>, (Seq<(Seq<char>, McpSchemaKind, Option<Seq<char>>)>, Seq<Seq<char>>)) {
    ("waitForSelector"@, "Wait for a CSS selector to appear in the current page."@, (seq![("selector"@, McpSchemaKind::String, None), ("timeout"@, McpSchemaKind::Integer, Some("Timeout in milliseconds. Defaults to 5000."@))], seq!["selector"@]))
}

/// The `waitForSelector` entry of the tool table.
fn wait_for_selector_tool() -> (descriptor: McpToolDescriptor)
    ensures
        tool_descriptor_view(descriptor) == wait_for_selector_tool_entry(),
{
    let properties: Vec<McpSchemaProperty> = vec![McpSchemaProperty { name: "selector", kind: McpSchemaKind::String, description: None }, McpSchemaProperty { name: "timeout", kind: McpSchemaKind::Integer, description: Some("Timeout in milliseconds. Defaults to 5000.") }];
    let required: Vec<&'static str> = vec!["selector"];
    let descriptor = McpToolDescriptor { name: "waitForSelector", description: "Wait for a CSS selector to appear in the current page.", input_schema: McpToolSchema { properties, required } };
    assert(schema_view(descriptor.input_schema).0 =~= wait_for_selector_tool_entry().2.0);
    assert(schema_view(descriptor.input_schema).1 =~= wait_for_selector_tool_entry().2.1);
    descriptor
}

/// The `click` entry of the tool table.
pub open spec fn click_tool_entry() -> (Seq<char>, Seq<char>, (Seq<(Seq<char>, McpSchemaKind, Option<Seq<char>>)>, Seq<Seq<char>>)) {
    ("click"@, "Click an element by backend node ID."@, (seq![("backendNodeId"@, McpSchemaKind::Integer, None)], seq!["backendNodeId"@]))
}

/// The `click` entry of the tool table.
fn click_tool() -> (descriptor: McpToolDescriptor)
    ensures
        tool_descriptor_view(descriptor) == click_tool_entry(),
{
    let properties: Vec<McpSchemaProperty> = vec![McpSchemaProperty { name: "backendNodeId", kind: McpSchemaKind::Integer, description: None }];
    let required: Vec<&'static str> = vec!["backendNodeId"];
    let descriptor = McpToolDescriptor { name: "click", description: "Click an element by backend node ID.", input_schema: McpToolSchema { properties, required } };
    assert(schema_view(descriptor.input_schema).0 =~= click_tool_entry().2.0);
    assert(schema_view(descriptor.input_schema).1 =~= click_tool_entry().2.1);
    descriptor
}

/// The `fill` entry of the tool table.
pub open spec fn fill_tool_entry() -> (Seq<char>, Seq<char>, (Seq<(Seq<char>, McpSchemaKind, Option<Seq<char>>)>, Seq<Seq<char>>)) {
    ("fill"@, "Fill an input or textarea by backend node ID."@, (seq![("backendNodeId"@, McpSchemaKind::Integer, None), ("text"@, McpSchemaKind::String, None)], seq!["backendNodeId"@, "text"@]))
}

/// The `fill` entry of the tool table.
fn fill_tool() -> (descriptor: McpToolDescriptor)
    ensures
        tool_descriptor_view(descriptor) == fill_tool_entry(),
{
    let properties: Vec<McpSchemaProperty> = vec![McpSchemaProperty { name: "backendNodeId", kind: McpSchemaKind::Integer, description: None }, McpSchemaProperty { name: "text", kind: McpSchemaKind::String, description: None }];
    let required: Vec<&'static str> = vec!["backendNodeId", "text"];
    let descriptor = McpToolDescriptor { name: "fill", description: "Fill an input or textarea by backend node ID.", input_schema: McpToolSchema { properties, required } };
    assert(schema_view(descriptor.input_schema).0 =~= fill_tool_entry().2.0);
    assert(schema_view(descriptor.input_schema).1 =~= fill_tool_entry().2.1);
    descriptor
}

/// The `press` entry of the tool table.
pub open spec fn press_tool_entry() -> (Seq<char>, Seq<char>, (Seq<(Seq<char>, McpSchemaKind, Option<Seq<char>>)>, Seq<Seq<char>>)) {
    ("press"@, "Dispatch a keyboard press, optionally targeting an element first."@, (seq![("key"@, McpSchemaKind::String, None), ("backendNodeId"@, McpSchemaKind::Integer, None)], seq!["key"@]))
}

/// The `press` entry of the tool table.
fn press_tool() -> (descriptor: McpToolDescriptor)
    ensures
        tool_descriptor_view(descriptor) == press_tool_entry(),
{
    let properties: Vec<McpSchemaProperty> = vec![McpSchemaProperty { name: "key", kind: McpSchemaKind::String, description: None }, McpSchemaProperty { name: "backendNodeId", kind: McpSchemaKind::Integer, description: None }];
    let required: Vec<&'static str> = vec!["key"];
    let descriptor = McpToolDescriptor { name: "press", description: "Dispatch a keyboard press, optionally targeting an element first.", input_schema: McpToolSchema { properties, required } };
    assert(schema_view(descriptor.input_schema).0 =~= press_tool_entry().2.0);
    assert(schema_view(descriptor.input_schema).1 =~= press_tool_entry().2.1);
    descriptor
}

/// The `hover` entry of the tool table.
pub open spec fn hover_tool_entry() -> (Seq<char>, Seq<char>, (Seq<(Seq<char>, McpSchemaKind, Option<Seq<char>>)>, Seq<Seq<char>>)) {
    ("hover"@, "Dispatch hover-style mouse events for an element by backend node ID."@, (seq![("backendNodeId"@, McpSchemaKind::Integer, None)], seq!["backendNodeId"@]))
}

/// The `hover` entry of the tool table.
fn hover_tool() -> (descriptor: McpToolDescriptor)
    ensures
        tool_descriptor_view(descriptor) == hover_tool_entry(),
{
    let properties: Vec<McpSchemaProperty> = vec![McpSchemaProperty { name: "backendNodeId", kind: McpSchemaKind::Integer, description: None }];
    let required: Vec<&'static str> = vec!["backendNodeId"];
    let descriptor = McpToolDescriptor { name: "hover", description: "Dispatch hover-style mouse events for an element by backend node ID.", input_schema: McpToolSchema { properties, required } };
    assert(schema_view(descriptor.input_schema).0 =~= hover_tool_entry().2.0);
    assert(schema_view(descriptor.input_schema).1 =~= hover_tool_entry().2.1);
    descriptor
}

/// The `scroll` entry of the tool table.
pub open spec fn scroll_tool_entry() -> (Seq<char>, Seq<char>, (Seq<(Seq<char>, McpSchemaKind, Option<Seq<char>>)>, Seq<Seq<char>>)) {
    ("scroll"@, "Scroll the window or a specific element."@, (seq![("backendNodeId"@, McpSchemaKind::Integer, None), ("x"@, McpSchemaKind::Integer, None), ("y"@, McpSchemaKind::Integer, None)], seq![]))
}

/// The `scroll` entry of the tool table.
fn scroll_tool() -> (descriptor: McpToolDescriptor)
    ensures
        tool_descriptor_view(descriptor) == scroll_tool_entry(),
{
    let properties: Vec<McpSchemaProperty> = vec![McpSchemaProperty { name: "backendNodeId", kind: McpSchemaKind::Integer, description: None }, McpSchemaProperty { name: "x", kind: McpSchemaKind::Integer, description: None }, McpSchemaProperty { name: "y", kind: McpSchemaKind::Integer, description: None }];
    let required: Vec<&'static str> = vec![];
    let descriptor = McpToolDescriptor { name: "scroll", description: "Scroll the window or a specific element.", input_schema: McpToolSchema { properties, required } };
    assert(schema_view(descriptor.input_schema).0 =~= scroll_tool_entry().2.0);
    assert(schema_view(descriptor.input_schema).1 =~= scroll_tool_entry().2.1);
    descriptor
}

/// The `selectOption` entry of the tool table.
pub open spec fn select_option_tool_entry() -> (Seq<char>, Seq<char>, (Seq<(Seq<char>, McpSchemaKind, Option<Seq<char>>)>, Seq<Seq<char>>)) {
    ("selectOption"@, "Select an option on a <select> element by value."@, (seq![("backendNodeId"@, McpSchemaKind::Integer, None), ("value"@, McpSchemaKind::String, None)], seq!["backendNodeId"@, "value"@]))
}

/// The `selectOption` entry of the tool table.
fn select_option_tool() -> (descriptor: McpToolDescriptor)
    ensures
        tool_descriptor_view(descriptor) == select_option_tool_entry(),
{
    let properties: Vec<McpSchemaProperty> = vec![McpSchemaProperty { name: "backendNodeId", kind: McpSchemaKind::Integer, description: None }, McpSchemaProperty { name: "value", kind: McpSchemaKind::String, description: None }];
    let required: Vec<&'static str> = vec!["backendNodeId", "value"];
    let descriptor = McpToolDescriptor { name: "selectOption", description: "Select an option on a <select> element by value.", input_schema: McpToolSchema { properties, required } };
    assert(schema_view(descriptor.input_schema).0 =~= select_option_tool_entry().2.0);
    assert(schema_view(descriptor.input_schema).1 =~= select_option_tool_entry().2.1);
    descriptor
}

/// The `setChecked` entry of the tool table.
pub open spec fn set_checked_tool_entry() -> (Seq<char>, Seq<char>, (Seq<(Seq<char>, McpSchemaKind, Option<Seq<char>>)>, Seq<Seq<char>>)) {
    ("setChecked"@, "Set checked state on a checkbox or radio input."@, (seq![("backendNodeId"@, McpSchemaKind::Integer, None), ("checked"@, McpSchemaKind::Boolean, None)], seq!["backendNodeId"@, "checked"@]))
}

/// The `setChecked` entry of the tool table.
fn set_checked_tool() -> (descriptor: McpToolDescriptor)
    ensures
        tool_descriptor_view(descriptor) == set_checked_tool_entry(),
{
    let properties: Vec<McpSchemaProperty> = vec![McpSchemaProperty { name: "backendNodeId", kind: McpSchemaKind::Integer, description: None }, McpSchemaProperty { name: "checked", kind: McpSchemaKind::Boolean, description: None }];
    let required: Vec<&'static str> = vec!["backendNodeId", "checked"];
    let descriptor = McpToolDescriptor { name: "setChecked", description: "Set checked state on a checkbox or radio input.", input_schema: McpToolSchema { properties, required } };
    assert(schema_view(descriptor.input_schema).0 =~= set_checked_tool_entry().2.0);
    assert(schema_view(descriptor.input_schema).1 =~= set_checked_tool_entry().2.1);
    descriptor
}

/// The tool table, in the order the server lists it.
pub open spec fn tool_table() -> Seq<(Seq<char>, Seq<char>, (Seq<(Seq<char>, McpSchemaKind, Option<Seq<char>>)>, Seq<Seq<char>>))> {
    seq![goto_tool_entry(), navigate_tool_entry(), markdown_tool_entry(), links_tool_entry(), evaluate_tool_entry(), eval_tool_entry(), semantic_tree_tool_entry(), node_details_tool_entry(), interactive_elements_tool_entry(), find_element_tool_entry(), wait_for_selector_tool_entry(), click_tool_entry(), fill_tool_entry(), press_tool_entry(), hover_tool_entry(), scroll_tool_entry(), select_option_tool_entry(), set_checked_tool_entry()]
}

/// The names of the tools the server offers, in table order.
pub open spec fn tool_names() -> Seq<Seq<char>> {
    tool_table().map_values(|e: (Seq<char>, Seq<char>, (Seq<(Seq<char>, McpSchemaKind, Option<Seq<char>>)>, Seq<Seq<char>>))| e.0)
}

/// No two tools the server offers share a name.
pub proof fn law_tool_names_are_distinct()
    ensures
        forall|i: int, j: int|
            0 <= i < tool_names().len() && 0 <= j < tool_names().len() && i != j ==> #[trigger] tool_names()[i]
                != #[trigger] tool_names()[j],
{
    reveal_strlit("goto");
    reveal_strlit("navigate");
    reveal_strlit("markdown");
    reveal_strlit("links");
    reveal_strlit("evaluate");
    reveal_strlit("eval");
    reveal_strlit("semantic_tree");
    reveal_strlit("nodeDetails");
    reveal_strlit("interactiveElements");
    reveal_strlit("findElement");
    reveal_strlit("waitForSelector");
    reveal_strlit("click");
    reveal_strlit("fill");
    reveal_strlit("press");
    reveal_strlit("hover");
    reveal_strlit("scroll");
    reveal_strlit("selectOption");
    reveal_strlit("setChecked");
    let names = tool_names();
    assert(names =~= seq!["goto"@, "navigate"@, "markdown"@, "links"@, "evaluate"@, "eval"@, "semantic_tree"@, "nodeDetails"@, "interactiveElements"@, "findElement"@, "waitForSelector"@, "click"@, "fill"@, "press"@, "hover"@, "scroll"@, "selectOption"@, "setChecked"@]);
    assert forall|i: int, j: int|
        0 <= i < names.len() && 0 <= j < names.len() && i != j implies #[trigger] names[i] != #[trigger] names[j] by {
        if names[i] == names[j] {
            assert(names[i].len() == names[j].len());
            assert(names[i][0] == names[j][0]);
        }
    }
}

/// The tools the server offers.
pub fn tool_list() -> (tools: Vec<McpToolDescriptor>)
    ensures
        tools@.map_values(|d: McpToolDescriptor| tool_descriptor_view(d)) == tool_table(),
{
    let mut tools: Vec<McpToolDescriptor> = Vec::new();
    tools.push(goto_tool());
    tools.push(navigate_tool());
    tools.push(markdown_tool());
    tools.push(links_tool());
    tools.push(evaluate_tool());
    tools.push(eval_tool());
    tools.push(semantic_tree_tool());
    tools.push(node_details_tool());
    tools.push(interactive_elements_tool());
    tools.push(find_element_tool());
    tools.push(wait_for_selector_tool());
    tools.push(click_tool());
    tools.push(fill_tool());
    tools.push(press_tool());
    tools.push(hover_tool());
    tools.push(scroll_tool());
    tools.push(select_option_tool());
    tools.push(set_checked_tool());
    assert(tools@.map_values(|d: McpToolDescriptor| tool_descriptor_view(d)) =~= tool_table());
    tools
}

// ---------------------------------------------------------------------------
// Numbers as text

/// The decimal digit character for `d < 10`.
pub open spec fn digit_char(d: nat) -> char {
    ((48 + d) as u32) as char
}

/// The decimal representation of `n`, without sign or leading zeros.
pub open spec fn decimal_digits(n: nat) -> Seq<char>
    decreases n,
{
    if n < 10 {
        seq![digit_char(n)]
    } else {
        decimal_digits(n / 10) + seq![digit_char(n % 10)]
    }
}

/// `n` in decimal; calls `ToString::to_string` on a `u64`, whose `Display`
/// writes the decimal digits without sign or padding.
#[verifier::external_body]
pub(crate) fn decimal_text(n: u64) -> (text: String)
    ensures
        text@ == decimal_digits(n as nat),
{
    n.to_string()
}

// ---------------------------------------------------------------------------
// Semantic tree text

/// One accessibility-tree payload, as far as the tree text reads it.
#[derive(Clone, Debug, PartialEq, Eq)]
pub struct SemanticTreeNode {
    pub node_id: Option<String>,
    pub role: Option<String>,
    pub name: Option<String>,
    pub value: Option<String>,
    pub backend_dom_node_id: Option<u64>,
    pub child_ids: Vec<String>,
}

/// Whether `node` carries the id `id`.
pub open spec fn has_node_id(node: SemanticTreeNode, id: Seq<char>) -> bool {
    node.node_id matches Some(n) && n@ == id
}

/// Whether `i` is the last position of `nodes` with id `id`.
pub open spec fn is_last_with_id(nodes: Seq<SemanticTreeNode>, id: Seq<char>, i: int) -> bool {
    0 <= i < nodes.len() && has_node_id(nodes[i], id) && forall|j: int|
        i < j < nodes.len() ==> !has_node_id(#[trigger] nodes[j], id)
}

/// The node an id stands for: the last payload that carries it.
pub open spec fn node_for_id(nodes: Seq<SemanticTreeNode>, id: Seq<char>) -> Option<SemanticTreeNode> {
    if exists|i: int| is_last_with_id(nodes, id, i) {
        Some(nodes[choose|i: int| is_last_with_id(nodes, id, i)])
    } else {
        None
    }
}

/// Two spaces per level of depth.
pub open spec fn indent(depth: nat) -> Seq<char>
    decreases depth,
{
    if depth == 0 {
        Seq::empty()
    } else {
        indent((depth - 1) as nat) + "  "@
    }
}

/// The role text of a node (`unknown` where it has none).
pub open spec fn role_text(node: SemanticTreeNode) -> Seq<char> {
    match node.role {
        Some(r) => r@,
        None => "unknown"@,
    }
}

/// An optional text, or the empty text.
pub open spec fn opt_string_text(s: Option<String>) -> Seq<char> {
    match s {
        Some(t) => t@,
        None => Seq::empty(),
    }
}

/// The backend node id of a node (zero where it has none).
pub open spec fn backend_of(node: SemanticTreeNode) -> u64 {
    match node.backend_dom_node_id {
        Some(b) => b,
        None => 0,
    }
}

/// The name part of a node's line.
pub open spec fn name_part(node: SemanticTreeNode) -> Seq<char> {
    if opt_string_text(node.name).len() > 0 {
        ": "@ + opt_string_text(node.name)
    } else {
        Seq::empty()
    }
}

/// The value part of a node's line.
pub open spec fn value_part(node: SemanticTreeNode) -> Seq<char> {
    if opt_string_text(node.value).len() > 0 {
        " = "@ + opt_string_text(node.value)
    } else {
        Seq::empty()
    }
}

/// The backend node id part of a node's line.
pub open spec fn backend_part(node: SemanticTreeNode) -> Seq<char> {
    if backend_of(node) != 0 {
        " [backendNodeId="@ + decimal_digits(backend_of(node) as nat) + "]"@
    } else {
        Seq::empty()
    }
}

/// The line of one node: its role (`unknown` where it has none), its name
/// and value where they are not empty, and its backend node id where it is
/// not zero.
pub open spec fn node_line(node: SemanticTreeNode, depth: nat) -> Seq<char> {
    indent(depth) + "- "@ + role_text(node) + name_part(node) + value_part(node) + backend_part(node) + "\n"@
}

/// The child ids of a node, as text.
pub open spec fn child_id_texts(node: SemanticTreeNode) -> Seq<Seq<char>> {
    node.child_ids@.map_values(|c: String| c@)
}

/// The lines of the subtree under `id`, depth first, descending at most
/// `fuel` levels.
pub open spec fn subtree_text(nodes: Seq<SemanticTreeNode>, id: Seq<char>, depth: nat, fuel: nat) -> Seq<char>
    decreases fuel, 0nat, 0nat,
{
    if fuel == 0 {
        Seq::empty()
    } else {
        match node_for_id(nodes, id) {
            None => Seq::empty(),
            Some(node) => node_line(node, depth) + children_text(
                nodes,
                child_id_texts(node),
                0,
                depth + 1,
                (fuel - 1) as nat,
            ),
        }
    }
}

/// The lines of the subtrees under `ids[start..]`, in order.
pub open spec fn children_text(nodes: Seq<SemanticTreeNode>, ids: Seq<Seq<char>>, start: int, depth: nat, fuel: nat) -> Seq<char>
    decreases fuel, 1nat, ids.len() - start,
{
    if start < 0 || start >= ids.len() {
        Seq::empty()
    } else {
        subtree_text(nodes, ids[start], depth, fuel) + children_text(nodes, ids, start + 1, depth, fuel)
    }
}

/// The text of the tree rooted at the first payload, before trailing
/// whitespace is trimmed.  Every path of distinct payloads is at most as
/// long as the list, so the depth bound only matters on cyclic input.
pub open spec fn semantic_tree_lines(nodes: Seq<SemanticTreeNode>) -> Seq<char> {
    if nodes.len() == 0 {
        Seq::empty()
    } else {
        match nodes[0].node_id {
            None => Seq::empty(),
            Some(root) => subtree_text(nodes, root@, 0, nodes.len()),
        }
    }
}

/// The last position of `nodes` carrying `id`.
fn find_node(nodes: &Vec<SemanticTreeNode>, id: &String) -> (found: Option<usize>)
    ensures
        match found {
            Some(i) => is_last_with_id(nodes@, id@, i as int),
            None => forall|i: int| 0 <= i < nodes@.len() ==> !has_node_id(#[trigger] nodes@[i], id@),
        },
{
    let mut k: usize = nodes.len();
    while k > 0
        invariant
            k <= nodes.len(),
            forall|j: int| k <= j < nodes@.len() ==> !has_node_id(#[trigger] nodes@[j], id@),
        decreases k,
    {
        k = k - 1;
        let matches = match &nodes[k].node_id {
            Some(n) => *n == *id,
            None => false,
        };
        if matches {
            return Some(k);
        }
    }
    None
}

/// Resolves `node_for_id` from a search result.
proof fn lemma_node_for_id(nodes: Seq<SemanticTreeNode>, id: Seq<char>, found: Option<usize>)
    requires
        match found {
            Some(i) => is_last_with_id(nodes, id, i as int),
            None => forall|i: int| 0 <= i < nodes.len() ==> !has_node_id(#[trigger] nodes[i], id),
        },
    ensures
        node_for_id(nodes, id) == (match found {
            Some(i) => Some(nodes[i as int]),
            None => None,
        }),
{
    match found {
        Some(i) => {
            let k = choose|k: int| is_last_with_id(nodes, id, k);
            assert(is_last_with_id(nodes, id, k));
            if k < i {
                assert(!has_node_id(nodes[i as int], id));
            } else if i < k {
                assert(!has_node_id(nodes[k], id));
            }
        },
        None => {},
    }
}

/// Appends the indentation of `depth`.
fn append_indent(depth: usize, out: &mut String)
    ensures
        final(out)@ == old(out)@ + indent(depth as nat),
{
    let ghost start = out@;
    let mut k: usize = 0;
    while k < depth
        invariant
            k <= depth,
            out@ == start + indent(k as nat),
        decreases depth - k,
    {
        out.append("  ");
        k = k + 1;
        assert(out@ =~= start + indent(k as nat));
    }
}

/// Appends `separator` and `text` where `text` is present and not empty.
fn append_labelled(separator: &str, text: &Option<String>, out: &mut String)
    ensures
        final(out)@ == old(out)@ + (if opt_string_text(*text).len() > 0 {
            separator@ + opt_string_text(*text)
        } else {
            Seq::empty()
        }),
{
    match text {
        Some(t) => {
            if !t.as_str().is_empty() {
                out.append(separator);
                out.append(t.as_str());
            } else {
                assert(out@ =~= old(out)@ + Seq::<char>::empty());
            }
        },
        None => {
            assert(out@ =~= old(out)@ + Seq::<char>::empty());
        },
    }
}

/// Appends the backend node id part of a node's line.
fn append_backend_part(node: &SemanticTreeNode, out: &mut String)
    ensures
        final(out)@ == old(out)@ + backend_part(*node),
{
    let backend: u64 = match node.backend_dom_node_id {
        Some(b) => b,
        None => 0,
    };
    if backend != 0 {
        out.append(" [backendNodeId=");
        let digits = decimal_text(backend);
        out.append(digits.as_str());
        out.append("]");
    } else {
        assert(out@ =~= old(out)@ + Seq::<char>::empty());
    }
}

/// Appends the line of `node` at `depth`.
fn append_node_line(node: &SemanticTreeNode, depth: usize, out: &mut String)
    ensures
        final(out)@ == old(out)@ + node_line(*node, depth as nat),
{
    let ghost start = out@;
    append_indent(depth, out);
    out.append("- ");
    match &node.role {
        Some(r) => out.append(r.as_str()),
        None => out.append("unknown"),
    }
    let ghost after_role = out@;
    append_labelled(": ", &node.name, out);
    let ghost after_name = out@;
    append_labelled(" = ", &node.value, out);
    let ghost after_value = out@;
    append_backend_part(node, out);
    let ghost after_backend = out@;
    out.append("\n");
    proof {
        assert(after_role == start + indent(depth as nat) + "- "@ + role_text(*node));
        assert(after_name == after_role + name_part(*node));
        assert(after_value == after_name + value_part(*node));
        assert(out@ == after_backend + "\n"@);
        assert(out@ =~= start + node_line(*node, depth as nat));
    }
}

/// Appends the subtree under `id`.
fn append_subtree(nodes: &Vec<SemanticTreeNode>, id: &String, depth: usize, fuel: usize, out: &mut String)
    requires
        depth + fuel <= usize::MAX,
    ensures
        final(out)@ == old(out)@ + subtree_text(nodes@, id@, depth as nat, fuel as nat),
    decreases fuel, 0nat, 0nat,
{
    if fuel == 0 {
        assert(out@ =~= old(out)@ + subtree_text(nodes@, id@, depth as nat, fuel as nat));
        return;
    }
    let found = find_node(nodes, id);
    proof {
        lemma_node_for_id(nodes@, id@, found);
    }
    match found {
        None => {
            assert(out@ =~= old(out)@ + subtree_text(nodes@, id@, depth as nat, fuel as nat));
        },
        Some(i) => {
            let node = &nodes[i];
            append_node_line(node, depth, out);
            let ghost mid = out@;
            append_children(nodes, &node.child_ids, 0, depth + 1, fuel - 1, out);
            proof {
                assert(child_id_texts(*node) == node.child_ids@.map_values(|c: String| c@));
                assert(out@ =~= old(out)@ + subtree_text(nodes@, id@, depth as nat, fuel as nat));
            }
        },
    }
}

/// Appends the subtrees under `ids[start..]`.
fn append_children(
    nodes: &Vec<SemanticTreeNode>,
    ids: &Vec<String>,
    start: usize,
    depth: usize,
    fuel: usize,
    out: &mut String,
)
    requires
        depth + fuel <= usize::MAX,
        start <= ids.len(),
    ensures
        final(out)@ == old(out)@ + children_text(
            nodes@,
            ids@.map_values(|c: String| c@),
            start as int,
            depth as nat,
            fuel as nat,
        ),
    decreases fuel, 1nat, ids.len() - start,
{
    let ghost texts = ids@.map_values(|c: String| c@);
    if start >= ids.len() {
        assert(out@ =~= old(out)@ + children_text(nodes@, texts, start as int, depth as nat, fuel as nat));
        return;
    }
    append_subtree(nodes, &ids[start], depth, fuel, out);
    append_children(nodes, ids, start + 1, depth, fuel, out);
    proof {
        assert(texts[start as int] == ids@[start as int]@);
        assert(out@ =~= old(out)@ + children_text(nodes@, texts, start as int, depth as nat, fuel as nat));
    }
}

/// The semantic tree as indented text, one line per node from the first
/// payload down, without trailing whitespace.
pub fn render_semantic_tree_text(nodes: &Vec<SemanticTreeNode>) -> (text: String)
    ensures
        text@ == trim_end_text(semantic_tree_lines(nodes@)),
{
    if nodes.len() == 0 {
        return String::new();
    }
    match &nodes[0].node_id {
        None => String::new(),
        Some(root) => {
            let mut out = String::new();
            append_subtree(nodes, root, 0, nodes.len(), &mut out);
            assert(out@ =~= semantic_tree_lines(nodes@));
            let trimmed = trim_end_whitespace(out.as_str());
            trimmed.to_owned()
        },
    }
}

// ---------------------------------------------------------------------------
// Message framing

/// The decimal digits of `s`, where `s` is a non-empty run of ASCII digits.
pub open spec fn digits_value(s: Seq<char>) -> nat
    decreases s.len(),
{
    if s.len() == 0 {
        0
    } else {
        digits_value(s.drop_last()) * 10 + ((s.last() as u32) - 48) as nat
    }
}

/// The `usize` that `s` spells: an optional `+` followed by one or more ASCII
/// digits whose value fits.
pub open spec fn parsed_usize(s: Seq<char>) -> Option<usize> {
    let digits = if s.len() > 0 && s[0] == '+' {
        s.drop_first()
    } else {
        s
    };
    if digits.len() > 0 && (forall|i: int| 0 <= i < digits.len() ==> is_ascii_digit_char(#[trigger] digits[i]))
        && digits_value(digits) <= usize::MAX {
        Some(digits_value(digits) as usize)
    } else {
        None
    }
}

/// Parses a decimal `usize`; calls `str::parse::<usize>`, which accepts an
/// optional `+` followed by ASCII digits, and fails on anything else and on
/// overflow.  The error is the parse error's message.
#[verifier::external_body]
fn parse_usize(s: &str) -> (parsed: Result<usize, String>)
    ensures
        match parsed_usize(s@) {
            Some(n) => parsed == Ok::<usize, String>(n),
            None => parsed is Err,
        },
{
    s.parse::<usize>().map_err(|error| error.to_string())
}

/// Decodes `bytes` as UTF-8; calls `std::str::from_utf8`.  The error is the
/// decoding error's message.
#[verifier::external_body]
fn decode_utf8_text(bytes: &[u8]) -> (text: Result<&str, String>)
    ensures
        match text {
            Ok(t) => valid_utf8(bytes@) && t@ == decode_utf8(bytes@),
            Err(_) => !valid_utf8(bytes@),
        },
{
    std::str::from_utf8(bytes).map_err(|error| error.to_string())
}

/// `s` without `prefix`, if it starts with it.
pub fn strip_text_prefix<'a>(s: &'a str, prefix: &str) -> (rest: Option<&'a str>)
    ensures
        match rest {
            Some(r) => s@.len() >= prefix@.len() && s@.subrange(0, prefix@.len() as int) == prefix@
                && r@ == s@.subrange(prefix@.len() as int, s@.len() as int),
            None => !(s@.len() >= prefix@.len() && s@.subrange(0, prefix@.len() as int) == prefix@),
        },
{
    let n = s.unicode_len();
    let k = prefix.unicode_len();
    if n < k {
        return None;
    }
    let head = s.substring_char(0, k);
    if text_is(head, prefix) {
        Some(s.substring_char(k, n))
    } else {
        None
    }
}

/// Whether a header line is the blank line that ends the headers.
pub open spec fn is_blank_header_line(line: Seq<u8>) -> bool {
    line == seq![10u8] || line == seq![13u8, 10u8]
}

/// What the header reader made of one line.
#[derive(Clone, Copy, Debug, PartialEq, Eq, Structural)]
pub enum McpHeaderLine {
    /// The blank line: the body follows.
    EndOfHeaders,
    /// A header line; more may follow.
    Header,
}

/// The state of reading the headers of one message: the `Content-Length`
/// read so far.
#[derive(Clone, Copy, Debug, PartialEq, Eq)]
pub struct McpHeaderReader {
    pub content_length: Option<usize>,
}

/// The value text of a `Content-Length:` header, if the trimmed line is
/// one (the prefix is case-sensitive).
pub open spec fn content_length_header_value(trimmed: Seq<char>) -> Option<Seq<char>> {
    let prefix = "Content-Length:"@;
    if trimmed.len() >= prefix.len() && trimmed.subrange(0, prefix.len() as int) == prefix {
        Some(trimmed.subrange(prefix.len() as int, trimmed.len() as int))
    } else {
        None
    }
}

impl McpHeaderReader {
    /// A reader that has seen no header.
    pub fn new() -> (reader: Self)
        ensures
            reader.content_length is None,
    {
        McpHeaderReader { content_length: None }
    }

    /// Reads one header line (with its line ending).  The blank line ends
    /// the headers; a `Content-Length:` line sets the length (the last one
    /// wins); other lines are skipped.  A line that is not UTF-8, or a length
    /// that is not a decimal `usize`, is an error.
    pub fn read_header_line(&mut self, line: &[u8]) -> (read: Result<McpHeaderLine, String>)
        ensures
            is_blank_header_line(line@) ==> read == Ok::<McpHeaderLine, String>(McpHeaderLine::EndOfHeaders)
                && *final(self) == *old(self),
            !is_blank_header_line(line@) && !valid_utf8(line@) ==> read is Err && *final(self) == *old(self),
            !is_blank_header_line(line@) && valid_utf8(line@) ==> match content_length_header_value(
                trim_text(decode_utf8(line@)),
            ) {
                None => read == Ok::<McpHeaderLine, String>(McpHeaderLine::Header) && *final(self) == *old(self),
                Some(value) => match parsed_usize(trim_text(value)) {
                    Some(n) => read == Ok::<McpHeaderLine, String>(McpHeaderLine::Header)
                        && final(self).content_length == Some(n),
                    None => read is Err && *final(self) == *old(self),
                },
            },
    {
        if line.len() == 1 && line[0] == 10u8 {
            assert(line@ =~= seq![10u8]);
            return Ok(McpHeaderLine::EndOfHeaders);
        }
        if line.len() == 2 && line[0] == 13u8 && line[1] == 10u8 {
            assert(line@ =~= seq![13u8, 10u8]);
            return Ok(McpHeaderLine::EndOfHeaders);
        }
        proof {
            if line@ == seq![10u8] {
                assert(line@.len() == 1);
            }
            if line@ == seq![13u8, 10u8] {
                assert(line@.len() == 2);
            }
        }
        let text = match decode_utf8_text(line) {
            Ok(t) => t,
            Err(e) => return Err(e),
        };
        let trimmed = trim_whitespace(text);
        match strip_text_prefix(trimmed, "Content-Length:") {
            None => {
                Ok(McpHeaderLine::Header)
            },
            Some(value) => {
                let digits = trim_whitespace(value);
                match parse_usize(digits) {
                    Ok(n) => {
                        self.content_length = Some(n);
                        Ok(McpHeaderLine::Header)
                    },
                    Err(e) => Err(e),
                }
            },
        }
    }

    /// The input ended before the blank line: no message where no length
    /// was read yet, an error otherwise.
    pub fn end_of_input(&self) -> (ended: Result<(), String>)
        ensures
            ended is Ok <==> self.content_length is None,
            ended matches Err(e) ==> e@ == "unexpected EOF while reading MCP headers"@,
    {
        match self.content_length {
            None => Ok(()),
            Some(_) => Err("unexpected EOF while reading MCP headers".to_owned()),
        }
    }

    /// The body length of the message, once the headers have ended.
    pub fn body_length(&self) -> (length: Result<usize, String>)
        ensures
            match self.content_length {
                Some(n) => length == Ok::<usize, String>(n),
                None => length matches Err(e) && e@ == "missing Content-Length header"@,
            },
    {
        match self.content_length {
            Some(n) => Ok(n),
            None => Err("missing Content-Length header".to_owned()),
        }
    }
}

/// The header written before a message body of `body_length` bytes.
pub fn frame_header(body_length: usize) -> (header: String)
    ensures
        header@ == "Content-Length: "@ + decimal_digits(body_length as nat) + "\r\n\r\n"@,
{
    let mut header = "Content-Length: ".to_owned();
    let digits = decimal_text(body_length as u64);
    header.append(digits.as_str());
    header.append("\r\n\r\n");
    header
}

// ---------------------------------------------------------------------------
// Tool argument defaults and key presses

/// The navigation timeout of a tool call, in milliseconds (10000 by
/// default).
pub fn navigation_timeout_ms(timeout: Option<u64>) -> (ms: u64)
    ensures
        ms == (match timeout {
            Some(t) => t,
            None => 10_000,
        }),
{
    match timeout {
        Some(t) => t,
        None => 10_000,
    }
}

/// The `waitForSelector` timeout, in milliseconds (5000 by default).
pub fn selector_timeout_ms(timeout: Option<u64>) -> (ms: u64)
    ensures
        ms == (match timeout {
            Some(t) => t,
            None => 5_000,
        }),
{
    match timeout {
        Some(t) => t,
        None => 5_000,
    }
}

/// The scroll position a `scroll` call asks for (the origin by default).
pub fn scroll_position(x: Option<i32>, y: Option<i32>) -> (position: (i32, i32))
    ensures
        position == ((match x {
            Some(v) => v,
            None => 0i32,
        }), (match y {
            Some(v) => v,
            None => 0i32,
        })),
{
    let x = match x {
        Some(v) => v,
        None => 0,
    };
    let y = match y {
        Some(v) => v,
        None => 0,
    };
    (x, y)
}

/// The error text of a tool call whose arguments do not parse.
pub open spec fn invalid_arguments_text(tool: McpTool) -> Seq<char> {
    match tool {
        McpTool::Goto => "invalid goto arguments"@,
        McpTool::Markdown => "invalid markdown arguments"@,
        McpTool::Links => "invalid links arguments"@,
        McpTool::Evaluate => "invalid evaluate arguments"@,
        McpTool::SemanticTree => "invalid semantic_tree arguments"@,
        McpTool::NodeDetails => "invalid nodeDetails arguments"@,
        McpTool::InteractiveElements => "invalid interactiveElements arguments"@,
        McpTool::FindElement => "invalid findElement arguments"@,
        McpTool::WaitForSelector => "invalid waitForSelector arguments"@,
        McpTool::Click => "invalid click arguments"@,
        McpTool::Fill => "invalid fill arguments"@,
        McpTool::Press => "invalid press arguments"@,
        McpTool::Hover => "invalid hover arguments"@,
        McpTool::Scroll => "invalid scroll arguments"@,
        McpTool::SelectOption => "invalid selectOption arguments"@,
        McpTool::SetChecked => "invalid setChecked arguments"@,
    }
}

/// The error of a tool call whose arguments do not parse (`navigate` and
/// `eval` report as `goto` and `evaluate`).
pub fn invalid_arguments_error(tool: McpTool) -> (error: &'static str)
    ensures
        error@ == invalid_arguments_text(tool),
{
    match tool {
        McpTool::Goto => "invalid goto arguments",
        McpTool::Markdown => "invalid markdown arguments",
        McpTool::Links => "invalid links arguments",
        McpTool::Evaluate => "invalid evaluate arguments",
        McpTool::SemanticTree => "invalid semantic_tree arguments",
        McpTool::NodeDetails => "invalid nodeDetails arguments",
        McpTool::InteractiveElements => "invalid interactiveElements arguments",
        McpTool::FindElement => "invalid findElement arguments",
        McpTool::WaitForSelector => "invalid waitForSelector arguments",
        McpTool::Click => "invalid click arguments",
        McpTool::Fill => "invalid fill arguments",
        McpTool::Press => "invalid press arguments",
        McpTool::Hover => "invalid hover arguments",
        McpTool::Scroll => "invalid scroll arguments",
        McpTool::SelectOption => "invalid selectOption arguments",
        McpTool::SetChecked => "invalid setChecked arguments",
    }
}

/// How a tool reaches the page it works on.
#[derive(Clone, Debug, PartialEq, Eq)]
pub enum McpPageAccess {
    /// Navigate to `url` first, waiting up to `timeout_ms` for `wait_until`.
    Navigate { url: String, timeout_ms: u64, wait_until: RenderedDomWaitUntil },
    /// Work on the page that is loaded.
    Current,
}

/// How a tool with the `url`, `timeout` and `waitUntil` arguments reaches
/// its page: a navigation where it names a URL (10000 ms and `done` by
/// default), otherwise the loaded page, or the page-not-loaded error where
/// none is loaded.
pub fn page_access(url: Option<String>, timeout: Option<u64>, wait_until: Option<&str>, page_loaded: bool) -> (access:
    Result<McpPageAccess, String>)
    ensures
        match url {
            Some(u) => {
                let lower = requested_wait_until(
                    match wait_until {
                        Some(r) => Some(r@),
                        None => None,
                    },
                );
                match wait_until_named(lower) {
                    Some(w) => access == Ok::<McpPageAccess, String>(
                        McpPageAccess::Navigate {
                            url: u,
                            timeout_ms: match timeout {
                                Some(t) => t,
                                None => 10_000u64,
                            },
                            wait_until: w,
                        },
                    ),
                    None => access matches Err(e) && e@ == "unsupported waitUntil `"@ + lower + "`"@,
                }
            },
            None => if page_loaded {
                access == Ok::<McpPageAccess, String>(McpPageAccess::Current)
            } else {
                access matches Err(e) && e@ == "page not loaded"@
            },
        },
{
    match url {
        Some(u) => {
            let timeout_ms = navigation_timeout_ms(timeout);
            match parse_wait_until(wait_until) {
                Ok(w) => Ok(McpPageAccess::Navigate { url: u, timeout_ms, wait_until: w }),
                Err(e) => Err(e),
            }
        },
        None => match loaded_page(page_loaded) {
            Ok(()) => Ok(McpPageAccess::Current),
            Err(e) => Err(e),
        },
    }
}

/// Whether a tool that works on the loaded page may go on: the
/// page-not-loaded error where none is loaded.
pub fn loaded_page(page_loaded: bool) -> (ready: Result<(), String>)
    ensures
        page_loaded <==> ready is Ok,
        !page_loaded ==> (ready matches Err(e) && e@ == "page not loaded"@),
{
    if page_loaded {
        Ok(())
    } else {
        Err("page not loaded".to_owned())
    }
}

/// The tool a `tools/call` request calls: its params must name a `name`
/// string, which must name a tool.
pub fn tool_call_request(name: Option<&str>) -> (tool: Result<McpTool, String>)
    ensures
        match name {
            None => tool matches Err(e) && e@ == "invalid tools/call params"@,
            Some(n) => match tool_named(n@) {
                Some(t) => tool == Ok::<McpTool, String>(t),
                None => tool matches Err(e) && e@ == "tool `"@ + n@ + "` not found"@,
            },
        },
{
    match name {
        None => Err("invalid tools/call params".to_owned()),
        Some(n) => route_tool_call(n),
    }
}

/// One key event a `press` dispatches.
#[derive(Clone, Copy, Debug, PartialEq, Eq)]
pub struct KeyEventParams<'a> {
    pub event_type: &'static str,
    pub key: &'a str,
    pub code: &'a str,
    pub text: &'a str,
    pub modifiers: u32,
    pub auto_repeat: bool,
    pub is_keypad_or_text: bool,
}

/// The two key events of pressing `key`: a key-down that types the key's
/// text (and says so where there is any), then a key-up that types nothing.
pub fn press_key_events(key: &str) -> (events: (KeyEventParams<'_>, KeyEventParams<'_>))
    ensures
        ({
            let (k, c, t) = key_spec_view(key@);
            &&& events.0.event_type@ == "keydown"@ && events.0.key@ == k && events.0.code@ == c && events.0.text@ == t
            &&& events.0.modifiers == 0 && !events.0.auto_repeat && events.0.is_keypad_or_text == (t.len() > 0)
            &&& events.1.event_type@ == "keyup"@ && events.1.key@ == k && events.1.code@ == c && events.1.text@ == Seq::<char>::empty()
            &&& events.1.modifiers == 0 && !events.1.auto_repeat && !events.1.is_keypad_or_text
        }),
{
    let spec = key_spec(key);
    proof {
        reveal_strlit("");
    }
    let down = KeyEventParams {
        event_type: "keydown",
        key: spec.key,
        code: spec.code,
        text: spec.text,
        modifiers: 0,
        auto_repeat: false,
        is_keypad_or_text: !spec.text.is_empty(),
    };
    let up = KeyEventParams {
        event_type: "keyup",
        key: spec.key,
        code: spec.code,
        text: "",
        modifiers: 0,
        auto_repeat: false,
        is_keypad_or_text: false,
    };
    (down, up)
}

// ---------------------------------------------------------------------------
// Links

/// One entry of the `links` tool.
#[derive(Clone, Debug, PartialEq, Eq)]
pub struct LinkEntry {
    pub backend_node_id: u32,
    pub href: String,
    pub text: String,
}

/// The `links` entry of an anchor: none where it is not an element or its
/// `href` is empty; otherwise its `href` and its trimmed text.
pub fn link_entry(
    backend_node_id: u32,
    attributes: Option<&[(String, String)]>,
    text: Option<&str>,
) -> (entry: Option<LinkEntry>)
    ensures
        match attributes {
            None => entry is None,
            Some(attrs) => {
                let href = text_or_empty(first_named_value(string_pairs(attrs@), "href"@));
                if href.len() == 0 {
                    entry is None
                } else {
                    entry matches Some(e) && e.backend_node_id == backend_node_id && e.href@ == href
                        && e.text@ == trim_text(text_or_empty(opt_str(text)))
                }
            },
        },
{
    let attributes = match attributes {
        Some(a) => a,
        None => return None,
    };
    let href = match attribute_value_from_pairs(attributes, "href") {
        Some(h) => h,
        None => String::new(),
    };
    if href.as_str().is_empty() {
        return None;
    }
    let text: &str = match text {
        Some(t) => t,
        None => "",
    };
    proof {
        reveal_strlit("");
    }
    let trimmed = trim_whitespace(text);
    Some(LinkEntry { backend_node_id, href, text: trimmed.to_owned() })
}

// ---------------------------------------------------------------------------
// Calling a function on a node

/// How the runtime resolved a backend node to a script object.
#[derive(Clone, Debug, PartialEq, Eq)]
pub enum RuntimeObjectResolution {
    /// Resolved; the remote object's `objectId`, if it has one.
    Found { object_id: Option<String> },
    /// The node exists but has no current runtime context.
    MissingContext,
    /// There is no such node.
    MissingNode,
}

/// `prefix`, the node id in decimal, then `suffix`.
pub open spec fn node_message(prefix: Seq<char>, backend_node_id: u32, suffix: Seq<char>) -> Seq<char> {
    prefix + decimal_digits(backend_node_id as nat) + suffix
}

/// The protocol call id of a `Runtime.callFunctionOn` request.
pub const CALL_FUNCTION_CALL_ID: i32 = 1;

/// A `Runtime.callFunctionOn` request, with arguments of type `V`.
#[derive(Clone, Debug, PartialEq, Eq)]
pub struct CallFunctionRequest<V> {
    pub id: i32,
    pub method: &'static str,
    pub object_id: String,
    pub function_declaration: String,
    pub arguments: Vec<V>,
    pub return_by_value: bool,
}

/// The request that calls `function_declaration` with `arguments` on the
/// object `object_id`, returning the result by value.
pub fn call_function_request<V>(object_id: String, function_declaration: String, arguments: Vec<V>) -> (request:
    CallFunctionRequest<V>)
    ensures
        request.id == CALL_FUNCTION_CALL_ID,
        request.method@ == "Runtime.callFunctionOn"@,
        request.object_id == object_id,
        request.function_declaration == function_declaration,
        request.arguments == arguments,
        request.return_by_value,
{
    CallFunctionRequest {
        id: CALL_FUNCTION_CALL_ID,
        method: "Runtime.callFunctionOn",
        object_id,
        function_declaration,
        arguments,
        return_by_value: true,
    }
}

/// The object a function is called on: the resolved object's id, or why
/// there is none.
pub fn call_function_target_object(backend_node_id: u32, resolution: RuntimeObjectResolution) -> (target: Result<String, String>)
    ensures
        match resolution {
            RuntimeObjectResolution::Found { object_id: Some(id) } => target == Ok::<String, String>(id),
            RuntimeObjectResolution::Found { object_id: None } => target matches Err(e) && e@ == node_message(
                "backendNodeId `"@,
                backend_node_id,
                "` runtime object did not include an objectId"@,
            ),
            RuntimeObjectResolution::MissingContext => target matches Err(e) && e@ == node_message(
                "backendNodeId `"@,
                backend_node_id,
                "` could not be resolved in the current runtime context"@,
            ),
            RuntimeObjectResolution::MissingNode => target matches Err(e) && e@ == node_message(
                "backendNodeId `"@,
                backend_node_id,
                "` not found"@,
            ),
        },
{
    let suffix: &str = match &resolution {
        RuntimeObjectResolution::Found { object_id: Some(_) } => "",
        RuntimeObjectResolution::Found { object_id: None } => "` runtime object did not include an objectId",
        RuntimeObjectResolution::MissingContext => "` could not be resolved in the current runtime context",
        RuntimeObjectResolution::MissingNode => "` not found",
    };
    match resolution {
        RuntimeObjectResolution::Found { object_id: Some(id) } => Ok(id),
        _ => {
            let mut message = "backendNodeId `".to_owned();
            let digits = decimal_text(backend_node_id as u64);
            message.append(digits.as_str());
            message.append(suffix);
            Err(message)
        },
    }
}

/// The protocol response of a call: the one the command turn produced, or
/// else the deferred one (absent where its callback was dropped, and inner
/// `None` where the deferred output held no response to the call).
pub fn call_function_protocol_response<V>(immediate: Option<V>, deferred: Option<Option<V>>) -> (response: Result<V, String>)
    ensures
        match immediate {
            Some(v) => response == Ok::<V, String>(v),
            None => match deferred {
                Some(Some(v)) => response == Ok::<V, String>(v),
                Some(None) => response matches Err(e) && e@ == "runtime callFunctionOn returned no protocol response"@,
                None => response matches Err(e) && e@ == "runtime callFunctionOn response callback was canceled"@,
            },
        },
{
    match immediate {
        Some(v) => Ok(v),
        None => match deferred {
            Some(Some(v)) => Ok(v),
            Some(None) => Err("runtime callFunctionOn returned no protocol response".to_owned()),
            None => Err("runtime callFunctionOn response callback was canceled".to_owned()),
        },
    }
}

/// The value a call returns, from the parts of its protocol response: an
/// `error` (with its message, if it has one) fails the call; otherwise the
/// `result.result` object is required, and its `value` is returned where it
/// has one, the object itself otherwise.
pub fn call_function_result<V>(error: Option<Option<String>>, result: Option<V>, value: Option<V>) -> (returned: Result<V, String>)
    ensures
        match error {
            Some(Some(m)) => returned == Err::<V, String>(m),
            Some(None) => returned matches Err(e) && e@ == "runtime callFunctionOn failed"@,
            None => match result {
                None => returned matches Err(e) && e@ == "runtime callFunctionOn returned no result payload"@,
                Some(r) => returned == Ok::<V, String>(
                    match value {
                        Some(v) => v,
                        None => r,
                    },
                ),
            },
        },
{
    match error {
        Some(Some(m)) => Err(m),
        Some(None) => Err("runtime callFunctionOn failed".to_owned()),
        None => match result {
            None => Err("runtime callFunctionOn returned no result payload".to_owned()),
            Some(r) => Ok(
                match value {
                    Some(v) => v,
                    None => r,
                },
            ),
        },
    }
}

// ---------------------------------------------------------------------------
// Laws

/// Every tool the server lists can be called by its listed name.
pub proof fn law_listed_tools_are_callable(i: int)
    requires
        0 <= i < tool_table().len(),
    ensures
        tool_named(tool_table()[i].0) is Some,
{
}

/// The aliases call the tools they alias: `navigate` is `goto` and `eval` is
/// `evaluate`.
pub proof fn law_tool_aliases_call_the_same_tool()
    ensures
        tool_named("navigate"@) == tool_named("goto"@),
        tool_named("eval"@) == tool_named("evaluate"@),
        tool_named("goto"@) is Some,
        tool_named("evaluate"@) is Some,
{
    reveal_strlit("eval");
    reveal_strlit("evaluate");
    reveal_strlit("goto");
    reveal_strlit("navigate");
    reveal_strlit("markdown");
    reveal_strlit("links");
    assert("eval"@[0] != "goto"@[0]);
    assert("eval"@.len() != "navigate"@.len());
    assert("eval"@.len() != "markdown"@.len());
    assert("eval"@.len() != "links"@.len());
    assert("evaluate"@[0] != "navigate"@[0]);
    assert("evaluate"@[0] != "markdown"@[0]);
    assert("evaluate"@.len() != "goto"@.len());
    assert("evaluate"@.len() != "links"@.len());
}

/// Every resource the server lists can be read by its listed URI, and is
/// read with the listed MIME type.
pub proof fn law_listed_resources_are_readable(i: int)
    requires
        0 <= i < resource_table().len(),
    ensures
        resource_named(resource_table()[i].0) matches Some(r) && resource_mime_type_of(r) == resource_table()[i].3,
{
    reveal_strlit("mcp://page/html");
    reveal_strlit("mcp://page/markdown");
    if i == 0 {
        assert(resource_table()[i].0 == "mcp://page/html"@);
        assert(resource_table()[i].3 == "text/html"@);
    } else {
        assert(resource_table()[i].0 == "mcp://page/markdown"@);
        assert(resource_table()[i].3 == "text/markdown"@);
        assert("mcp://page/markdown"@.len() != "mcp://page/html"@.len());
    }
}

/// Lower-casing a text of lower-case ASCII letters and `_` leaves it as it is.
proof fn lemma_lowercase_keeps_lower(s: Seq<char>)
    requires
        forall|i: int| 0 <= i < s.len() ==> !(65 <= (#[trigger] s[i] as u32) <= 90),
    ensures
        ascii_lowercase_of(s) == s,
{
    assert(ascii_lowercase_of(s) =~= s);
}

/// Every wait strategy the tool schemas advertise is accepted.
pub proof fn law_advertised_wait_strategies_are_accepted(i: int)
    requires
        0 <= i < advertised_wait_until_choices().len(),
    ensures
        wait_until_named(requested_wait_until(Some(advertised_wait_until_choices()[i]))) is Some,
{
    reveal_strlit("domcontentloaded");
    reveal_strlit("load");
    reveal_strlit("networkidle");
    reveal_strlit("done");
    let c = advertised_wait_until_choices()[i];
    lemma_lowercase_keeps_lower(c);
}

/// The wait strategy of a request does not depend on the ASCII case of its
/// name.
pub proof fn law_wait_until_ignores_ascii_case(raw: Seq<char>)
    ensures
        requested_wait_until(Some(raw)) == requested_wait_until(Some(ascii_lowercase_of(raw))),
        wait_until_named(requested_wait_until(Some(raw))) == wait_until_named(
            requested_wait_until(Some(ascii_lowercase_of(raw))),
        ),
{
    lemma_ascii_lowercase_idempotent(raw);
}

/// The decimal digits of a number are ASCII digits.
proof fn lemma_decimal_digits_are_digits(n: nat)
    ensures
        decimal_digits(n).len() > 0,
        forall|i: int| 0 <= i < decimal_digits(n).len() ==> is_ascii_digit_char(#[trigger] decimal_digits(n)[i]),
    decreases n,
{
    if n >= 10 {
        lemma_decimal_digits_are_digits(n / 10);
        let s = decimal_digits(n / 10) + seq![digit_char(n % 10)];
        assert forall|i: int| 0 <= i < s.len() implies is_ascii_digit_char(#[trigger] s[i]) by {
            if i < decimal_digits(n / 10).len() {
                assert(s[i] == decimal_digits(n / 10)[i]);
            }
        }
    }
}

/// A decimal digit character reads back as its digit.
proof fn lemma_digit_char_value(d: nat)
    requires
        d < 10,
    ensures
        (digit_char(d) as u32) == 48 + d,
        is_ascii_digit_char(digit_char(d)),
{
    assert(((48 + d) as u32) < 0xD800);
}

/// Reading the decimal digits of a number gives the number back.
proof fn lemma_decimal_digits_value(n: nat)
    ensures
        digits_value(decimal_digits(n)) == n,
    decreases n,
{
    if n < 10 {
        lemma_digit_char_value(n);
        let s = decimal_digits(n);
        assert(s == seq![digit_char(n)]);
        assert(s.drop_last() =~= Seq::<char>::empty());
        assert(digits_value(s.drop_last()) == 0);
        assert(s.last() == digit_char(n));
        assert(digits_value(s) == digits_value(s.drop_last()) * 10 + ((s.last() as u32) - 48) as nat);
    } else {
        lemma_decimal_digits_value(n / 10);
        lemma_digit_char_value(n % 10);
        let s = decimal_digits(n / 10) + seq![digit_char(n % 10)];
        assert(decimal_digits(n) == s);
        assert(s.drop_last() =~= decimal_digits(n / 10));
        assert(s.last() == digit_char(n % 10));
        assert(digits_value(s) == digits_value(s.drop_last()) * 10 + ((s.last() as u32) - 48) as nat);
        assert(digits_value(s) == (n / 10) * 10 + n % 10);
        assert(n == (n / 10) * 10 + n % 10) by (nonlinear_arith);
    }
}
/// Trimming the end of `s + tail` where `tail` is whitespace and `s` does
/// not end in whitespace gives `s`.
proof fn lemma_trim_end_drops_whitespace_tail(s: Seq<char>, tail: Seq<char>)
    requires
        s.len() > 0,
        !is_unicode_whitespace(s.last()),
        forall|i: int| 0 <= i < tail.len() ==> is_unicode_whitespace(#[trigger] tail[i]),
    ensures
        trim_end_text(s + tail) == s,
    decreases tail.len(),
{
    if tail.len() == 0 {
        assert(s + tail =~= s);
    } else {
        assert((s + tail).drop_last() =~= s + tail.drop_last());
        assert((s + tail).last() == tail.last());
        lemma_trim_end_drops_whitespace_tail(s, tail.drop_last());
    }
}

/// Trimming the header line leaves the header without its line end.
proof fn lemma_trim_header_line(digits: Seq<char>)
    requires
        digits.len() > 0,
        forall|i: int| 0 <= i < digits.len() ==> is_ascii_digit_char(#[trigger] digits[i]),
    ensures
        trim_text("Content-Length: "@ + digits + "\r\n"@) == "Content-Length: "@ + digits,
{
    reveal_strlit("Content-Length: ");
    reveal_strlit("\r\n");
    let head = "Content-Length: "@ + digits;
    let line = head + "\r\n"@;
    assert(digits[digits.len() - 1] == digits.last());
    assert(head.last() == digits.last());
    assert(is_ascii_digit_char(digits[digits.len() - 1]));
    lemma_trim_end_drops_whitespace_tail(head, "\r\n"@);
    assert(line[0] == 'C');
    assert(trim_start_text(line) == line);
}

/// The value of the header is a space followed by the digits.
proof fn lemma_header_value(digits: Seq<char>)
    ensures
        content_length_header_value("Content-Length: "@ + digits) == Some(seq![' '] + digits),
{
    reveal_strlit("Content-Length: ");
    reveal_strlit("Content-Length:");
    let head = "Content-Length: "@ + digits;
    let prefix = "Content-Length:"@;
    assert(head.subrange(0, prefix.len() as int) =~= prefix);
    assert(head.subrange(prefix.len() as int, head.len() as int) =~= seq![' '] + digits);
}

/// Trimming the header value leaves the digits.
proof fn lemma_trim_value(digits: Seq<char>)
    requires
        digits.len() > 0,
        forall|i: int| 0 <= i < digits.len() ==> is_ascii_digit_char(#[trigger] digits[i]),
    ensures
        trim_text(seq![' '] + digits) == digits,
{
    let value = seq![' '] + digits;
    assert(value.drop_first() =~= digits);
    assert(is_ascii_digit_char(digits[0]));
    assert(is_ascii_digit_char(digits[digits.len() - 1]));
    assert(digits[digits.len() - 1] == digits.last());
    assert(trim_start_text(digits) == digits);
    assert(trim_start_text(value) == digits);
    assert(trim_end_text(digits) == digits);
}

/// The header that `frame_header` writes for `n` is read back as `n`: its
/// first line, trimmed, is a `Content-Length:` header whose trimmed value
/// spells `n`.
pub proof fn law_frame_header_is_read_back(n: usize)
    ensures
        ({
            let line = "Content-Length: "@ + decimal_digits(n as nat) + "\r\n"@;
            &&& content_length_header_value(trim_text(line)) is Some
            &&& parsed_usize(trim_text(content_length_header_value(trim_text(line))->Some_0)) == Some(n)
        }),
{
    let digits = decimal_digits(n as nat);
    lemma_decimal_digits_are_digits(n as nat);
    lemma_decimal_digits_value(n as nat);
    lemma_trim_header_line(digits);
    lemma_header_value(digits);
    lemma_trim_value(digits);
    assert(is_ascii_digit_char(digits[0]));
    assert(digits[0] != '+');
}
/// Whether `a` and `b` are a documented alias pair (`navigate` for `goto`,
/// `eval` for `evaluate`).
pub open spec fn are_tool_aliases(a: Seq<char>, b: Seq<char>) -> bool {
    ((a == "goto"@ || a == "navigate"@) && (b == "goto"@ || b == "navigate"@)) || ((a == "evaluate"@ || a == "eval"@) && (b
        == "evaluate"@ || b == "eval"@))
}

/// Each tool name calls the tool of that name: two names call the same tool
/// only when they are equal or a documented alias pair, and every tool the
/// table lists is callable by its listed name.
pub proof fn law_tool_names_call_distinct_tools(a: Seq<char>, b: Seq<char>)
    ensures
        tool_named(a) is Some && tool_named(a) == tool_named(b) ==> a == b || are_tool_aliases(a, b),
        forall|i: int| 0 <= i < tool_names().len() ==> #[trigger] tool_named(tool_names()[i]) is Some,
{
    reveal_strlit("goto");
    reveal_strlit("navigate");
    reveal_strlit("markdown");
    reveal_strlit("links");
    reveal_strlit("evaluate");
    reveal_strlit("eval");
    reveal_strlit("semantic_tree");
    reveal_strlit("nodeDetails");
    reveal_strlit("interactiveElements");
    reveal_strlit("findElement");
    reveal_strlit("waitForSelector");
    reveal_strlit("click");
    reveal_strlit("fill");
    reveal_strlit("press");
    reveal_strlit("hover");
    reveal_strlit("scroll");
    reveal_strlit("selectOption");
    reveal_strlit("setChecked");
    law_tool_names_are_distinct();
    let names = tool_names();
    assert(names =~= seq!["goto"@, "navigate"@, "markdown"@, "links"@, "evaluate"@, "eval"@, "semantic_tree"@, "nodeDetails"@, "interactiveElements"@, "findElement"@, "waitForSelector"@, "click"@, "fill"@, "press"@, "hover"@, "scroll"@, "selectOption"@, "setChecked"@]);
}

/// The tool a canonical name calls reports its argument errors under that
/// very name.
pub proof fn law_tool_named_agrees_with_its_argument_errors(name: Seq<char>)
    requires
        tool_named(name) is Some,
        name != "navigate"@,
        name != "eval"@,
    ensures
        invalid_arguments_text(tool_named(name)->0) == "invalid "@ + name + " arguments"@,
{
    reveal_strlit("goto");
    reveal_strlit("navigate");
    reveal_strlit("markdown");
    reveal_strlit("links");
    reveal_strlit("evaluate");
    reveal_strlit("eval");
    reveal_strlit("semantic_tree");
    reveal_strlit("nodeDetails");
    reveal_strlit("interactiveElements");
    reveal_strlit("findElement");
    reveal_strlit("waitForSelector");
    reveal_strlit("click");
    reveal_strlit("fill");
    reveal_strlit("press");
    reveal_strlit("hover");
    reveal_strlit("scroll");
    reveal_strlit("selectOption");
    reveal_strlit("setChecked");
    reveal_strlit("invalid ");
    reveal_strlit(" arguments");
    assert(invalid_arguments_text(tool_named(name)->0) =~= "invalid "@ + name + " arguments"@) by {
        reveal_strlit("invalid goto arguments");
        reveal_strlit("invalid markdown arguments");
        reveal_strlit("invalid links arguments");
        reveal_strlit("invalid evaluate arguments");
        reveal_strlit("invalid semantic_tree arguments");
        reveal_strlit("invalid nodeDetails arguments");
        reveal_strlit("invalid interactiveElements arguments");
        reveal_strlit("invalid findElement arguments");
        reveal_strlit("invalid waitForSelector arguments");
        reveal_strlit("invalid click arguments");
        reveal_strlit("invalid fill arguments");
        reveal_strlit("invalid press arguments");
        reveal_strlit("invalid hover arguments");
        reveal_strlit("invalid scroll arguments");
        reveal_strlit("invalid selectOption arguments");
        reveal_strlit("invalid setChecked arguments");
    }
}

/// Whether `nodes` form a chain of payloads: each carries an id, the ids
/// are distinct, each payload names the next one as its only child, and the
/// last has no children.
pub open spec fn is_payload_chain(nodes: Seq<SemanticTreeNode>) -> bool {
    &&& forall|i: int| 0 <= i < nodes.len() ==> (#[trigger] nodes[i]).node_id is Some
    &&& forall|i: int, j: int|
        0 <= i < j < nodes.len() ==> (#[trigger] nodes[i]).node_id->0@ != (#[trigger] nodes[j]).node_id->0@
    &&& forall|i: int|
        0 <= i < nodes.len() - 1 ==> (#[trigger] nodes[i]).child_ids@.len() == 1 && nodes[i].child_ids@[0]@
            == nodes[i + 1].node_id->0@
    &&& nodes.len() > 0 ==> nodes[nodes.len() - 1].child_ids@.len() == 0
}

/// The lines of a chain from position `i` on: one line per payload, the
/// `i`-th indented `i` levels.
pub open spec fn chain_lines(nodes: Seq<SemanticTreeNode>, i: nat) -> Seq<char>
    decreases nodes.len() - i,
{
    if i >= nodes.len() {
        Seq::empty()
    } else {
        node_line(nodes[i as int], i) + chain_lines(nodes, i + 1)
    }
}

proof fn lemma_chain_node_for_id(nodes: Seq<SemanticTreeNode>, k: int)
    requires
        is_payload_chain(nodes),
        0 <= k < nodes.len(),
    ensures
        node_for_id(nodes, nodes[k].node_id->0@) == Some(nodes[k]),
{
    let id = nodes[k].node_id->0@;
    assert(nodes[k].node_id is Some);
    assert forall|j: int| k < j < nodes.len() implies !has_node_id(#[trigger] nodes[j], id) by {
        assert(nodes[k].node_id->0@ != nodes[j].node_id->0@);
    }
    assert(is_last_with_id(nodes, id, k));
    let c = choose|c: int| is_last_with_id(nodes, id, c);
    assert(is_last_with_id(nodes, id, c));
    if c < k {
        assert(nodes[c].node_id->0@ != nodes[k].node_id->0@);
    } else if k < c {
        assert(nodes[k].node_id->0@ != nodes[c].node_id->0@);
    }
}

proof fn lemma_chain_subtree(nodes: Seq<SemanticTreeNode>, k: nat, fuel: nat)
    requires
        is_payload_chain(nodes),
        k < nodes.len(),
        fuel >= nodes.len() - k,
    ensures
        subtree_text(nodes, nodes[k as int].node_id->0@, k, fuel) == chain_lines(nodes, k),
    decreases nodes.len() - k,
{
    lemma_chain_node_for_id(nodes, k as int);
    let node = nodes[k as int];
    let kids = child_id_texts(node);
    if k + 1 < nodes.len() {
        assert(node.child_ids@.len() == 1);
        assert(kids =~= seq![nodes[k + 1 as int].node_id->0@]);
        lemma_chain_subtree(nodes, k + 1, (fuel - 1) as nat);
        assert(children_text(nodes, kids, 1, k + 1, (fuel - 1) as nat) == Seq::<char>::empty());
        assert(children_text(nodes, kids, 0, k + 1, (fuel - 1) as nat) =~= subtree_text(
            nodes,
            kids[0],
            k + 1,
            (fuel - 1) as nat,
        ) + Seq::<char>::empty());
    } else {
        assert(kids.len() == 0);
        assert(chain_lines(nodes, k + 1) == Seq::<char>::empty());
        assert(node_line(node, k) + Seq::<char>::empty() =~= node_line(node, k));
    }
}

/// Every payload of a chain gets its line: the tree text of a chain of `n`
/// distinct payloads is the `n` lines of the chain, the `i`-th indented `i`
/// levels, however long the chain is (the depth bound only cuts cycles).
pub proof fn law_chain_renders_every_payload(nodes: Seq<SemanticTreeNode>)
    requires
        is_payload_chain(nodes),
    ensures
        semantic_tree_lines(nodes) == chain_lines(nodes, 0),
{
    if nodes.len() > 0 {
        assert(nodes[0].node_id is Some);
        lemma_chain_subtree(nodes, 0, nodes.len());
    }
}

proof fn lemma_indent_is_spaces(depth: nat)
    ensures
        indent(depth) =~= Seq::new(2 * depth, |i: int| ' '),
    decreases depth,
{
    reveal_strlit("  ");
    if depth > 0 {
        lemma_indent_is_spaces((depth - 1) as nat);
    }
}

/// The line of a payload at `depth` is two spaces per level, `- `, the
/// payload's role, and a closing line break.
pub proof fn law_node_line_shape(node: SemanticTreeNode, depth: nat)
    ensures
        ({
            let line = node_line(node, depth);
            let n: int = 2 * depth as int;
            &&& line.len() >= n + 3
            &&& forall|i: int| 0 <= i < n ==> #[trigger] line[i] == ' '
            &&& line[n] == '-' && line[n + 1] == ' '
            &&& line.subrange(n + 2, n + 2 + role_text(node).len()) == role_text(node)
            &&& line.last() == '\n'
        }),
{
    lemma_indent_is_spaces(depth);
    reveal_strlit("- ");
    reveal_strlit("\n");
    let line = node_line(node, depth);
    let n: int = 2 * depth as int;
    let head = indent(depth) + "- "@ + role_text(node);
    let rest = name_part(node) + value_part(node) + backend_part(node) + "\n"@;
    assert(line =~= head + rest);
    assert(head.subrange(n + 2, n + 2 + role_text(node).len()) =~= role_text(node));
    assert(line.subrange(n + 2, n + 2 + role_text(node).len()) =~= head.subrange(n + 2, n + 2 + role_text(node).len()));
}

} // verus!
