//! The line-based JSON protocol of the keyboard daemon, and what the roster learns
//! from it.

use vstd::prelude::*;
use vstd::utf8::{decode_utf8, valid_utf8};
use crate::address::Ipv4;
use crate::client::{ClientView, text_of};
use crate::shared_data::{SharedData, SharedDataView, addresses_of, client_addresses, same_roster};

verus! {

/// Makes `serde_json::Value` known as a type whose inside is not looked at.
#[verifier::external_type_specification]
#[verifier::external_body]
pub struct ExJsonValue(serde_json::Value);

/// Makes `serde_json::Error` known as a type whose inside is not looked at.
#[verifier::external_type_specification]
#[verifier::external_body]
pub struct ExJsonError(serde_json::Error);

/// The JSON document that `serde_json::from_str` reads from a text; `None` where it
/// reports an error.
pub uninterp spec fn json_document(text: Seq<char>) -> Option<serde_json::Value>;

/// What `serde_json::Value::get` finds under a string key: the member of that name
/// where the value is an object that has one.
pub uninterp spec fn json_member(value: serde_json::Value, key: Seq<char>) -> Option<
    serde_json::Value,
>;

/// What `serde_json::Value::as_str` gives: the text of a value that is a string.
pub uninterp spec fn json_string(value: serde_json::Value) -> Option<Seq<char>>;

/// What `String::from_utf8_lossy` makes of a byte sequence.
pub uninterp spec fn utf8_lossy(bytes: Seq<u8>) -> Seq<char>;

/// Reads a text as one JSON document with `serde_json::from_str`.
///
/// Trusted: the outcome depends on the text alone, so it is given the name
/// [`json_document`]; nothing is said of which texts are documents.
#[verifier::external_body]
fn parse_json(text: &str) -> (parsed: Result<serde_json::Value, serde_json::Error>)
    ensures
        match parsed {
            Ok(value) => json_document(text@) == Some(value),
            Err(_) => json_document(text@) is None,
        },
{
    serde_json::from_str::<serde_json::Value>(text)
}

/// Looks up a member with `serde_json::Value::get`.
///
/// Trusted: the outcome depends on the value and the key alone, so it is given the
/// name [`json_member`].
#[verifier::external_body]
fn member<'a>(value: &'a serde_json::Value, key: &str) -> (found: Option<&'a serde_json::Value>)
    ensures
        match found {
            Some(inner) => json_member(*value, key@) == Some(*inner),
            None => json_member(*value, key@) is None,
        },
{
    value.get(key)
}

/// Reads a string value with `serde_json::Value::as_str`.
///
/// Trusted: the outcome depends on the value alone, so it is given the name
/// [`json_string`].
#[verifier::external_body]
fn string_of<'a>(value: &'a serde_json::Value) -> (text: Option<&'a str>)
    ensures
        match text {
            Some(s) => json_string(*value) == Some(s@),
            None => json_string(*value) is None,
        },
{
    value.as_str()
}

/// Decodes bytes with `String::from_utf8_lossy`.
///
/// Trusted: the text depends on the bytes alone, so it is given the name
/// [`utf8_lossy`]; on valid UTF-8 it is the decoded text, as the function's
/// documentation says.
#[verifier::external_body]
fn decode_lossy(bytes: &[u8]) -> (text: String)
    ensures
        text@ == utf8_lossy(bytes@),
        valid_utf8(bytes@) ==> text@ == decode_utf8(bytes@),
{
    String::from_utf8_lossy(bytes).into_owned()
}

/// The outer key of a status notification.
pub const STATUS_KEY: &'static str = "LayerChange";

/// The key, in a status notification and in a command, under which the layer stands.
pub const LAYER_KEY: &'static str = "new";

/// The layer that a status document reports: the string under `LayerChange`, then
/// `new`; `None` where a member is missing or the value is no string.
pub open spec fn layer_in_document(document: serde_json::Value) -> Option<Seq<char>> {
    match json_member(document, STATUS_KEY@) {
        Some(change) => match json_member(change, LAYER_KEY@) {
            Some(layer) => json_string(layer),
            None => None,
        },
        None => None,
    }
}

/// The layer that a status line reports: that of the JSON document that the line
/// holds; `None` where the line holds none.
pub open spec fn reported_layer(line: Seq<char>) -> Option<Seq<char>> {
    match json_document(line) {
        Some(document) => layer_in_document(document),
        None => None,
    }
}

/// Extracts the layer that a status document reports.
pub fn layer_of_document(document: &serde_json::Value) -> (layer: Option<String>)
    ensures
        text_of(layer) == layer_in_document(*document),
{
    match member(document, STATUS_KEY) {
        Some(change) => match member(change, LAYER_KEY) {
            Some(layer) => match string_of(layer) {
                Some(name) => Some(name.to_owned()),
                None => None,
            },
            None => None,
        },
        None => None,
    }
}

/// Extracts the layer that a status line reports; `None` where the line is no JSON
/// document or has another shape.
pub fn layer_of_status_line(line: &str) -> (layer: Option<String>)
    ensures
        text_of(layer) == reported_layer(line@),
{
    match parse_json(line) {
        Ok(document) => layer_of_document(&document),
        Err(_) => None,
    }
}

/// The line feed that ends a protocol line.
pub const LINE_FEED: u8 = 10;

/// The carriage return that may stand before a line feed.
pub const CARRIAGE_RETURN: u8 = 13;

/// How many bytes stand before the first line feed, or the whole length where there
/// is none.
pub open spec fn line_length(bytes: Seq<u8>) -> int
    decreases bytes.len(),
{
    if bytes.len() == 0 || bytes[0] == LINE_FEED {
        0
    } else {
        1 + line_length(bytes.drop_first())
    }
}

/// The first line of a buffer, without its line ending (a line feed, or a carriage
/// return and a line feed). A buffer without a line feed is one line; an empty buffer
/// has none. Whatever follows the first line is ignored.
pub open spec fn first_line(bytes: Seq<u8>) -> Option<Seq<u8>> {
    let n = line_length(bytes);
    if bytes.len() == 0 {
        None
    } else if n < bytes.len() && n > 0 && bytes[n - 1] == CARRIAGE_RETURN {
        Some(bytes.subrange(0, n - 1))
    } else {
        Some(bytes.subrange(0, n))
    }
}

/// The layer that a response buffer reports: that of its first line, read as text.
pub open spec fn layer_in_response(bytes: Seq<u8>) -> Option<Seq<char>> {
    match first_line(bytes) {
        Some(line) => reported_layer(utf8_lossy(line)),
        None => None,
    }
}

/// A position with no line feed before it, which is the end of the buffer or holds a
/// line feed, is the length of the first line.
pub proof fn lemma_line_length(bytes: Seq<u8>, n: int)
    requires
        0 <= n <= bytes.len(),
        forall|j: int| 0 <= j < n ==> bytes[j] != LINE_FEED,
        n == bytes.len() || bytes[n] == LINE_FEED,
    ensures
        line_length(bytes) == n,
    decreases n,
{
    if n > 0 {
        let rest = bytes.drop_first();
        lemma_line_length(rest, n - 1);
    }
}

/// Finds the first line of a buffer.
pub fn find_first_line(bytes: &[u8]) -> (line: Option<&[u8]>)
    ensures
        match line {
            Some(l) => first_line(bytes@) == Some(l@),
            None => first_line(bytes@) is None,
        },
{
    if bytes.len() == 0 {
        return None;
    }
    let mut n: usize = 0;
    while n < bytes.len() && bytes[n] != LINE_FEED
        invariant
            n <= bytes.len(),
            forall|j: int| 0 <= j < n ==> bytes@[j] != LINE_FEED,
        decreases bytes.len() - n,
    {
        n = n + 1;
    }
    proof {
        lemma_line_length(bytes@, n as int);
    }
    if n < bytes.len() && n > 0 && bytes[n - 1] == CARRIAGE_RETURN {
        Some(vstd::slice::slice_subrange(bytes, 0, n - 1))
    } else {
        Some(vstd::slice::slice_subrange(bytes, 0, n))
    }
}

/// Reads the layer that a daemon reported from the bytes it sent; `None` where the
/// first line is no status notification.
pub fn get_current_layer(response: &[u8]) -> (layer: Option<String>)
    ensures
        text_of(layer) == layer_in_response(response@),
{
    match find_first_line(response) {
        Some(line) => {
            let text = decode_lossy(line);
            layer_of_status_line(text.as_str())
        },
        None => None,
    }
}

/// What a command line starts with, up to the layer's name.
pub const CHANGE_LAYER_PREFIX: &'static str = "{\"ChangeLayer\":{\"new\":\"";

/// What a command line ends with, after the layer's name.
pub const CHANGE_LAYER_SUFFIX: &'static str = "\"}}\n";

/// A line that is no command, sent after a query so that the daemon closes the
/// connection.
pub const DISCONNECT_MESSAGE: &'static str = "{}";

/// The layer in which keyboards work.
pub const ENABLED_LAYER: &'static str = "enabled";

/// The layer in which keyboards are switched off.
pub const DISABLED_LAYER: &'static str = "disabled";

/// The command line that asks a daemon to change to `layer`.
pub open spec fn change_layer_text(layer: Seq<char>) -> Seq<char> {
    CHANGE_LAYER_PREFIX@ + layer + CHANGE_LAYER_SUFFIX@
}

/// Builds the command line that asks a daemon to change to `layer`.
pub fn change_layer_message(layer: &str) -> (message: String)
    ensures
        message@ == change_layer_text(layer@),
{
    let mut message = String::from_str(CHANGE_LAYER_PREFIX);
    message.append(layer);
    message.append(CHANGE_LAYER_SUFFIX);
    message
}

/// One command to deliver: the line to write to the daemon at `ip_address`, after its
/// greeting has been read. Delivery is attempted once and its failure goes unreported.
#[derive(Debug)]
pub struct LayerChangeOrder {
    pub ip_address: Ipv4,
    pub port: u16,
    pub timeout_ms: u64,
    pub message: String,
}

/// The mathematical model of a [`LayerChangeOrder`].
pub struct LayerChangeOrderView {
    pub ip_address: Ipv4,
    pub port: u16,
    pub timeout_ms: u64,
    pub message: Seq<char>,
}

impl View for LayerChangeOrder {
    type V = LayerChangeOrderView;

    open spec fn view(&self) -> LayerChangeOrderView {
        LayerChangeOrderView {
            ip_address: self.ip_address,
            port: self.port,
            timeout_ms: self.timeout_ms,
            message: self.message@,
        }
    }
}

impl DeepView for LayerChangeOrder {
    type V = LayerChangeOrderView;

    open spec fn deep_view(&self) -> LayerChangeOrderView {
        self@
    }
}

/// One daemon to ask for its layer.
#[derive(Clone, Copy, Debug, PartialEq, Eq, Structural)]
pub struct LayerQuery {
    pub ip_address: Ipv4,
    pub port: u16,
    pub timeout_ms: u64,
}

/// The commands that change the daemon at every one of `addresses` to `layer`: one for
/// each address, in order, to the same port and with the same timeout.
pub open spec fn orders_to(addresses: Seq<Ipv4>, port: u16, timeout_ms: u64, layer: Seq<char>) -> Seq<
    LayerChangeOrderView,
> {
    Seq::new(
        addresses.len(),
        |i: int|
            LayerChangeOrderView {
                ip_address: addresses[i],
                port,
                timeout_ms,
                message: change_layer_text(layer),
            },
    )
}

/// The queries that ask the daemon at every one of `addresses`, in order.
pub open spec fn queries_to(addresses: Seq<Ipv4>, port: u16, timeout_ms: u64) -> Seq<LayerQuery> {
    Seq::new(addresses.len(), |i: int| LayerQuery { ip_address: addresses[i], port, timeout_ms })
}

/// The commands that change every workstation of the roster to `layer`: one for each,
/// in roster order, to the configured port and with the configured timeout.
pub open spec fn layer_change_orders(shared: SharedDataView, layer: Seq<char>) -> Seq<
    LayerChangeOrderView,
> {
    orders_to(
        addresses_of(shared.clients),
        shared.config.kanata_port,
        shared.config.kanata_tcp_timeout_ms,
        layer,
    )
}

/// The queries of one poll cycle: one for each workstation, in roster order.
pub open spec fn layer_queries(shared: SharedDataView) -> Seq<LayerQuery> {
    queries_to(
        addresses_of(shared.clients),
        shared.config.kanata_port,
        shared.config.kanata_tcp_timeout_ms,
    )
}

/// Prepares the change to `layer` for the daemon at every one of `addresses`.
pub fn orders_for(addresses: &Vec<Ipv4>, port: u16, timeout_ms: u64, layer: &str) -> (orders: Vec<
    LayerChangeOrder,
>)
    ensures
        orders.deep_view() == orders_to(addresses@, port, timeout_ms, layer@),
{
    let mut orders: Vec<LayerChangeOrder> = Vec::new();
    let mut i: usize = 0;
    while i < addresses.len()
        invariant
            i <= addresses.len(),
            orders@.len() == i,
            forall|j: int|
                0 <= j < i ==> (#[trigger] orders@[j])@ == orders_to(
                    addresses@,
                    port,
                    timeout_ms,
                    layer@,
                )[j],
        decreases addresses.len() - i,
    {
        let order = LayerChangeOrder {
            ip_address: addresses[i],
            port,
            timeout_ms,
            message: change_layer_message(layer),
        };
        orders.push(order);
        i = i + 1;
    }
    orders
}

/// Prepares the queries for the daemon at every one of `addresses`.
pub fn queries_for(addresses: &Vec<Ipv4>, port: u16, timeout_ms: u64) -> (queries: Vec<LayerQuery>)
    ensures
        queries@ == queries_to(addresses@, port, timeout_ms),
{
    let mut queries: Vec<LayerQuery> = Vec::new();
    let mut i: usize = 0;
    while i < addresses.len()
        invariant
            i <= addresses.len(),
            queries@.len() == i,
            forall|j: int|
                0 <= j < i ==> #[trigger] queries@[j] == queries_to(addresses@, port, timeout_ms)[j],
        decreases addresses.len() - i,
    {
        queries.push(LayerQuery { ip_address: addresses[i], port, timeout_ms });
        i = i + 1;
    }
    queries
}

/// Prepares the change to `layer` for every workstation of the roster.
pub fn try_layer_change_all(shared_data: &SharedData, layer: &str) -> (orders: Vec<LayerChangeOrder>)
    ensures
        orders.deep_view() == layer_change_orders(shared_data@, layer@),
{
    let addresses = client_addresses(&shared_data.clients);
    orders_for(
        &addresses,
        shared_data.config.kanata_port,
        shared_data.config.kanata_tcp_timeout_ms,
        layer,
    )
}

/// Prepares the command that switches every keyboard on.
pub fn enable_keyboards(shared_data: &SharedData) -> (orders: Vec<LayerChangeOrder>)
    ensures
        orders.deep_view() == layer_change_orders(shared_data@, ENABLED_LAYER@),
{
    try_layer_change_all(shared_data, ENABLED_LAYER)
}

/// Prepares the command that switches every keyboard off.
pub fn disable_keyboards(shared_data: &SharedData) -> (orders: Vec<LayerChangeOrder>)
    ensures
        orders.deep_view() == layer_change_orders(shared_data@, DISABLED_LAYER@),
{
    try_layer_change_all(shared_data, DISABLED_LAYER)
}

/// Prepares the queries of one poll cycle.
pub fn query_targets(shared_data: &SharedData) -> (queries: Vec<LayerQuery>)
    ensures
        queries@ == layer_queries(shared_data@),
{
    let addresses = client_addresses(&shared_data.clients);
    queries_for(
        &addresses,
        shared_data.config.kanata_port,
        shared_data.config.kanata_tcp_timeout_ms,
    )
}

/// A workstation after a query: its observed layer is the outcome of the query, be it
/// a layer or a failure; whatever was observed before is gone.
pub open spec fn client_queried(client: ClientView, outcome: Option<Seq<char>>) -> ClientView {
    ClientView {
        name: client.name,
        ip_address: client.ip_address,
        current_layer: outcome,
        last_timer_access: client.last_timer_access,
    }
}

/// The state after the query of the workstation at `client_index` ended with `outcome`.
pub open spec fn client_updated(
    pre: SharedDataView,
    client_index: int,
    outcome: Option<Seq<char>>,
) -> SharedDataView {
    SharedDataView {
        clients: pre.clients.update(client_index, client_queried(pre.clients[client_index], outcome)),
        ..pre
    }
}

/// The state after a poll cycle: every workstation has the outcome of its query, and
/// one without an outcome counts as failed.
pub open spec fn clients_updated(pre: SharedDataView, outcomes: Seq<Option<Seq<char>>>) -> SharedDataView {
    SharedDataView {
        clients: Seq::new(
            pre.clients.len(),
            |i: int|
                client_queried(
                    pre.clients[i],
                    if i < outcomes.len() {
                        outcomes[i]
                    } else {
                        None
                    },
                ),
        ),
        ..pre
    }
}

/// Stores the outcome of a query in the field that holds a workstation's observed
/// layer: a layer that was reported replaces what was there, and so does a failure.
pub fn store_query_outcome(current_layer: &mut Option<String>, outcome: Option<String>)
    ensures
        *final(current_layer) == outcome,
{
    *current_layer = outcome;
}

/// Stores the outcome of the query of one workstation.
pub fn update_client(shared_data: &mut SharedData, client_index: usize, current_layer: Option<String>)
    requires
        client_index < old(shared_data).clients@.len(),
    ensures
        final(shared_data)@ == client_updated(
            old(shared_data)@,
            client_index as int,
            text_of(current_layer),
        ),
{
    store_query_outcome(&mut shared_data.clients[client_index].current_layer, current_layer);
    proof {
        assert(shared_data.clients.deep_view() =~= old(shared_data).clients.deep_view().update(
            client_index as int,
            client_queried(
                old(shared_data).clients.deep_view()[client_index as int],
                text_of(current_layer),
            ),
        ));
    }
}

/// Stores what the daemon of one workstation answered: the bytes it sent, or `None`
/// where the connection or the read failed.
pub fn update_client_from_response(
    shared_data: &mut SharedData,
    client_index: usize,
    response: Option<&[u8]>,
)
    requires
        client_index < old(shared_data).clients@.len(),
    ensures
        final(shared_data)@ == client_updated(
            old(shared_data)@,
            client_index as int,
            match response {
                Some(bytes) => layer_in_response(bytes@),
                None => None,
            },
        ),
{
    let current_layer = match response {
        Some(bytes) => get_current_layer(bytes),
        None => None,
    };
    update_client(shared_data, client_index, current_layer);
}

/// The texts of a list of optional strings.
pub open spec fn texts_of(layers: Seq<Option<String>>) -> Seq<Option<Seq<char>>> {
    Seq::new(layers.len(), |i: int| text_of(layers[i]))
}

/// Stores the outcomes of one poll cycle, one for each workstation in roster order.
pub fn update_clients(shared_data: &mut SharedData, layers: Vec<Option<String>>)
    ensures
        final(shared_data)@ == clients_updated(old(shared_data)@, texts_of(layers@)),
{
    let mut layers = layers;
    let ghost outcomes = texts_of(layers@);
    let ghost pre = shared_data@;
    let mut i: usize = 0;
    while i < shared_data.clients.len()
        invariant
            i <= shared_data.clients.len(),
            pre == old(shared_data)@,
            layers@.len() == outcomes.len(),
            shared_data.clients@.len() == pre.clients.len(),
            forall|j: int| i <= j < layers@.len() ==> text_of(#[trigger] layers@[j]) == outcomes[j],
            shared_data@.config == pre.config,
            shared_data@.nonclients == pre.nonclients,
            shared_data@.times == pre.times,
            shared_data@.symlink_info == pre.symlink_info,
            shared_data@.symlink_target == pre.symlink_target,
            forall|j: int|
                0 <= j < i ==> (#[trigger] shared_data.clients@[j])@ == clients_updated(
                    pre,
                    outcomes,
                ).clients[j],
            forall|j: int|
                i <= j < shared_data.clients@.len() ==> (#[trigger] shared_data.clients@[j])@
                    == pre.clients[j],
        decreases shared_data.clients.len() - i,
    {
        let current_layer: Option<String> = if i < layers.len() {
            layers[i].take()
        } else {
            None
        };
        shared_data.clients[i].current_layer = current_layer;
        i = i + 1;
    }
    proof {
        assert(shared_data@.clients =~= clients_updated(pre, outcomes).clients);
    }
}

/// A successful query leaves the reported layer as the observed one; a failed query
/// after it leaves none; and a workstation whose queries fail stays without one.
pub proof fn lemma_query_outcomes(client: ClientView, layer: Seq<char>)
    ensures
        client_queried(client, Some(layer)).current_layer == Some(layer),
        client_queried(client_queried(client, Some(layer)), None).current_layer is None,
        client_queried(client, None).current_layer is None,
{
}

/// The query of one workstation changes the observed layer of that workstation to the
/// outcome and nothing else in the state.
pub proof fn lemma_update_is_local(pre: SharedDataView, client_index: int, outcome: Option<Seq<char>>)
    requires
        0 <= client_index < pre.clients.len(),
    ensures
        same_roster(client_updated(pre, client_index, outcome).clients, pre.clients),
        client_updated(pre, client_index, outcome).clients[client_index].current_layer == outcome,
        forall|i: int|
            0 <= i < pre.clients.len() && i != client_index ==> #[trigger] client_updated(
                pre,
                client_index,
                outcome,
            ).clients[i] == pre.clients[i],
        client_updated(pre, client_index, outcome).nonclients == pre.nonclients,
        client_updated(pre, client_index, outcome).times == pre.times,
        pre.wf() ==> client_updated(pre, client_index, outcome).wf(),
{
}

/// After a poll cycle every workstation has the outcome of its own query, whatever it
/// had before, and the roster holds the same workstations.
pub proof fn lemma_poll_cycle(pre: SharedDataView, outcomes: Seq<Option<Seq<char>>>)
    requires
        outcomes.len() == pre.clients.len(),
    ensures
        same_roster(clients_updated(pre, outcomes).clients, pre.clients),
        forall|i: int|
            0 <= i < pre.clients.len() ==> (#[trigger] clients_updated(
                pre,
                outcomes,
            ).clients[i]).current_layer == outcomes[i],
{
}

} // verus!
