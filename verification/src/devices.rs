//! Audio endpoints: what is known of each, which of them the bridge can use, and how a selector
//! names one.

use crate::text::{
    ascii_lower, begins_with, comes_before, contains_text, decimal, digits, eq_ignore_ascii_case,
    equal_ignoring_ascii_case, holds_text, join, joined, lowercase, stands_at, text_before,
    text_before_is_irreflexive, text_before_is_total, text_before_is_transitive, to_lowercase,
};
use crate::{EndpointArgs, EndpointArgsView, ReferenceMode};
use vstd::prelude::*;

verus! {

/// The direction in which an endpoint moves audio.
#[derive(Clone, Copy, Debug, PartialEq, Eq, Structural)]
pub enum Flow {
    Capture,
    Render,
}

impl Flow {
    /// The name of a direction.
    pub open spec fn spec_name(self) -> Seq<char> {
        match self {
            Flow::Capture => "Capture"@,
            Flow::Render => "Render"@,
        }
    }

    /// The name of the direction.
    pub fn name(self) -> (text: &'static str)
        ensures
            text@ == self.spec_name(),
    {
        match self {
            Flow::Capture => "Capture",
            Flow::Render => "Render",
        }
    }
}

/// What an optional outside value came to, with texts by their characters.
pub open spec fn text_result(result: Result<String, String>) -> Result<Seq<char>, Seq<char>> {
    match result {
        Ok(text) => Ok(text@),
        Err(error) => Err(error@),
    }
}

fn copy_text_result(result: &Result<String, String>) -> (copy: Result<String, String>)
    ensures
        text_result(copy) == text_result(*result),
{
    match result {
        Ok(text) => Ok(text.clone()),
        Err(error) => Err(error.clone()),
    }
}

/// How an endpoint encodes a sample.
#[derive(Debug)]
pub enum SampleEncoding {
    /// 32-bit floating point.
    Float32,
    /// Any other encoding, by its name.
    Other(String),
}

/// A sample encoding with its name by characters.
pub enum SampleEncodingView {
    Float32,
    Other(Seq<char>),
}

impl View for SampleEncoding {
    type V = SampleEncodingView;

    open spec fn view(&self) -> SampleEncodingView {
        match self {
            SampleEncoding::Float32 => SampleEncodingView::Float32,
            SampleEncoding::Other(name) => SampleEncodingView::Other(name@),
        }
    }
}

impl SampleEncodingView {
    /// The name of an encoding.
    pub open spec fn name(self) -> Seq<char> {
        match self {
            SampleEncodingView::Float32 => "f32"@,
            SampleEncodingView::Other(name) => name,
        }
    }
}

/// The audio format that an endpoint uses by default.
#[derive(Debug)]
pub struct StreamFormat {
    pub sample_rate: u32,
    pub channels: u16,
    pub encoding: SampleEncoding,
    /// The buffer sizes that the endpoint supports, described.
    pub buffer: String,
}

/// An audio format with its texts by characters.
pub struct StreamFormatView {
    pub sample_rate: u32,
    pub channels: u16,
    pub encoding: SampleEncodingView,
    pub buffer: Seq<char>,
}

impl View for StreamFormat {
    type V = StreamFormatView;

    open spec fn view(&self) -> StreamFormatView {
        StreamFormatView {
            sample_rate: self.sample_rate,
            channels: self.channels,
            encoding: self.encoding@,
            buffer: self.buffer@,
        }
    }
}

impl Clone for StreamFormat {
    fn clone(&self) -> (copy: Self)
        ensures
            copy@ == self@,
    {
        StreamFormat {
            sample_rate: self.sample_rate,
            channels: self.channels,
            encoding: match &self.encoding {
                SampleEncoding::Float32 => SampleEncoding::Float32,
                SampleEncoding::Other(name) => SampleEncoding::Other(name.clone()),
            },
            buffer: self.buffer.clone(),
        }
    }
}

/// A format, or why there is none, with texts by their characters.
pub open spec fn format_result(result: Result<StreamFormat, String>) -> Result<
    StreamFormatView,
    Seq<char>,
> {
    match result {
        Ok(format) => Ok(format@),
        Err(error) => Err(error@),
    }
}

fn copy_format_result(result: &Result<StreamFormat, String>) -> (copy: Result<StreamFormat, String>)
    ensures
        format_result(copy) == format_result(*result),
{
    match result {
        Ok(format) => Ok(format.clone()),
        Err(error) => Err(error.clone()),
    }
}

/// One audio device as the system reports it. Each part can be missing for a reason of its own.
#[derive(Debug)]
pub struct AudioDevice {
    /// The stable identifier.
    pub id: Result<String, String>,
    /// The short name.
    pub name: Result<String, String>,
    /// The full description.
    pub description: Result<String, String>,
    pub supports_input: bool,
    pub supports_output: bool,
    /// The default format for capture.
    pub input: Result<StreamFormat, String>,
    /// The default format for rendering.
    pub output: Result<StreamFormat, String>,
}

/// An audio device with its texts by characters.
pub struct AudioDeviceView {
    pub id: Result<Seq<char>, Seq<char>>,
    pub name: Result<Seq<char>, Seq<char>>,
    pub description: Result<Seq<char>, Seq<char>>,
    pub supports_input: bool,
    pub supports_output: bool,
    pub input: Result<StreamFormatView, Seq<char>>,
    pub output: Result<StreamFormatView, Seq<char>>,
}

impl View for AudioDevice {
    type V = AudioDeviceView;

    open spec fn view(&self) -> AudioDeviceView {
        AudioDeviceView {
            id: text_result(self.id),
            name: text_result(self.name),
            description: text_result(self.description),
            supports_input: self.supports_input,
            supports_output: self.supports_output,
            input: format_result(self.input),
            output: format_result(self.output),
        }
    }
}

impl DeepView for AudioDevice {
    type V = AudioDeviceView;

    open spec fn deep_view(&self) -> AudioDeviceView {
        self@
    }
}

impl Clone for AudioDevice {
    fn clone(&self) -> (copy: Self)
        ensures
            copy@ == self@,
    {
        AudioDevice {
            id: copy_text_result(&self.id),
            name: copy_text_result(&self.name),
            description: copy_text_result(&self.description),
            supports_input: self.supports_input,
            supports_output: self.supports_output,
            input: copy_format_result(&self.input),
            output: copy_format_result(&self.output),
        }
    }
}

impl AudioDeviceView {
    /// Whether a device moves audio in a direction.
    pub open spec fn supports(self, flow: Flow) -> bool {
        match flow {
            Flow::Capture => self.supports_input,
            Flow::Render => self.supports_output,
        }
    }

    /// The default format of a device in a direction, or why there is none.
    pub open spec fn format(self, flow: Flow) -> Result<StreamFormatView, Seq<char>> {
        match flow {
            Flow::Capture => match self.input {
                Ok(format) => Ok(format),
                Err(error) => Err("endpoint has no default capture format: "@ + error),
            },
            Flow::Render => match self.output {
                Ok(format) => Ok(format),
                Err(error) => Err("endpoint has no default render format: "@ + error),
            },
        }
    }
}

/// Whether the device moves audio in the direction.
pub fn supports_flow(device: &AudioDevice, flow: Flow) -> (supported: bool)
    ensures
        supported == device@.supports(flow),
        flow == Flow::Capture ==> supported == device.supports_input,
        flow == Flow::Render ==> supported == device.supports_output,
{
    match flow {
        Flow::Capture => device.supports_input,
        Flow::Render => device.supports_output,
    }
}

/// The default format of the device in the direction.
pub fn stream_config(device: &AudioDevice, flow: Flow) -> (format: Result<StreamFormat, String>)
    ensures
        format_result(format) == device@.format(flow),
        flow == Flow::Capture ==> (format is Ok <==> device.input is Ok),
        flow == Flow::Render ==> (format is Ok <==> device.output is Ok),
{
    match flow {
        Flow::Capture => match &device.input {
            Ok(format) => Ok(format.clone()),
            Err(error) => {
                let mut message = "endpoint has no default capture format: ".to_owned();
                message.append(error.as_str());
                Err(message)
            },
        },
        Flow::Render => match &device.output {
            Ok(format) => Ok(format.clone()),
            Err(error) => {
                let mut message = "endpoint has no default render format: ".to_owned();
                message.append(error.as_str());
                Err(message)
            },
        },
    }
}

impl StreamFormatView {
    /// Whether the channels suit a direction: capture takes one or two, rendering exactly two.
    pub open spec fn channels_suit(self, flow: Flow) -> bool {
        match flow {
            Flow::Capture => self.channels == 1 || self.channels == 2,
            Flow::Render => self.channels == 2,
        }
    }

    /// Whether the bridge can use a format: 48 kHz, 32-bit floating point, and suitable channels.
    pub open spec fn compatible(self, flow: Flow) -> bool {
        &&& self.sample_rate == 48_000
        &&& self.encoding is Float32
        &&& self.channels_suit(flow)
    }

    /// What a format reads like.
    pub open spec fn described(self) -> Seq<char> {
        digits(self.sample_rate as nat) + " Hz, "@ + digits(self.channels as nat)
            + " channel(s), "@ + self.encoding.name() + ", buffer "@ + self.buffer
    }

    /// Why the bridge cannot use a format. The sample rate is looked at first, then the encoding,
    /// then the channels.
    pub open spec fn complaint(self, label: Seq<char>, flow: Flow) -> Seq<char> {
        if self.sample_rate != 48_000 {
            label + " must use 48 kHz shared-mode audio, but its default is "@ + digits(
                self.sample_rate as nat,
            ) + " Hz"@
        } else if !(self.encoding is Float32) {
            label + " must use f32 shared-mode audio, but its default is "@ + self.encoding.name()
        } else {
            match flow {
                Flow::Capture => label + " must expose one or two channels, but it exposes "@
                    + digits(self.channels as nat),
                Flow::Render => label + " must expose two channels, but it exposes "@ + digits(
                    self.channels as nat,
                ),
            }
        }
    }
}

fn encoding_name(encoding: &SampleEncoding) -> (name: String)
    ensures
        name@ == encoding@.name(),
{
    match encoding {
        SampleEncoding::Float32 => "f32".to_owned(),
        SampleEncoding::Other(name) => name.clone(),
    }
}

/// Describes a format in one line.
pub fn format_config(config: &StreamFormat) -> (text: String)
    ensures
        text@ == config@.described(),
{
    let mut text = decimal(config.sample_rate as u64);
    text.append(" Hz, ");
    text.append(decimal(config.channels as u64).as_str());
    text.append(" channel(s), ");
    text.append(encoding_name(&config.encoding).as_str());
    text.append(", buffer ");
    text.append(config.buffer.as_str());
    text
}

/// Whether the bridge can use a format in the direction.
pub fn is_compatible_format(config: &StreamFormat, flow: Flow) -> (compatible: bool)
    ensures
        compatible == config@.compatible(flow),
        compatible <==> config.sample_rate == 48_000 && config.encoding is Float32 && if flow
            == Flow::Capture {
            config.channels == 1 || config.channels == 2
        } else {
            config.channels == 2
        },
{
    let float = match config.encoding {
        SampleEncoding::Float32 => true,
        SampleEncoding::Other(_) => false,
    };
    config.sample_rate == 48_000 && float && match flow {
        Flow::Capture => config.channels == 1 || config.channels == 2,
        Flow::Render => config.channels == 2,
    }
}

fn format_complaint(label: &str, config: &StreamFormat, flow: Flow) -> (message: String)
    ensures
        message@ == config@.complaint(label@, flow),
{
    let mut message = label.to_owned();
    if config.sample_rate != 48_000 {
        message.append(" must use 48 kHz shared-mode audio, but its default is ");
        message.append(decimal(config.sample_rate as u64).as_str());
        message.append(" Hz");
        return message;
    }
    match &config.encoding {
        SampleEncoding::Float32 => {},
        SampleEncoding::Other(name) => {
            message.append(" must use f32 shared-mode audio, but its default is ");
            message.append(name.as_str());
            return message;
        },
    }
    match flow {
        Flow::Capture => {
            message.append(" must expose one or two channels, but it exposes ");
        },
        Flow::Render => {
            message.append(" must expose two channels, but it exposes ");
        },
    }
    message.append(decimal(config.channels as u64).as_str());
    message
}

/// The format that the bridge uses on a device, or why it cannot use the device.
pub open spec fn validated(label: Seq<char>, device: AudioDeviceView, flow: Flow) -> Result<
    StreamFormatView,
    Seq<char>,
> {
    match device.format(flow) {
        Err(error) => Err(error),
        Ok(format) => if format.compatible(flow) {
            Ok(format)
        } else {
            Err(format.complaint(label, flow))
        },
    }
}

/// The format of the device in the direction, where the bridge can use it.
pub fn validate_format(label: &str, device: &AudioDevice, flow: Flow) -> (outcome: Result<
    StreamFormat,
    String,
>)
    ensures
        format_result(outcome) == validated(label@, device@, flow),
{
    let config = stream_config(device, flow)?;
    if is_compatible_format(&config, flow) {
        Ok(config)
    } else {
        Err(format_complaint(label, &config, flow))
    }
}

/// The direction in which the reference endpoint is used.
pub open spec fn reference_flow_of(mode: ReferenceMode) -> Flow {
    match mode {
        ReferenceMode::Loopback => Flow::Render,
        ReferenceMode::Capture => Flow::Capture,
    }
}

/// The direction in which the reference endpoint is used: a loopback reference is a rendering
/// endpoint.
pub fn reference_flow(mode: ReferenceMode) -> (flow: Flow)
    ensures
        flow == reference_flow_of(mode),
{
    match mode {
        ReferenceMode::Loopback => Flow::Render,
        ReferenceMode::Capture => Flow::Capture,
    }
}

/// An endpoint that can be chosen.
#[derive(Debug)]
pub struct EndpointDescriptor {
    pub id: String,
    pub name: String,
    pub format: String,
    pub compatible: bool,
}

/// An endpoint with its texts by characters.
pub struct EndpointDescriptorView {
    pub id: Seq<char>,
    pub name: Seq<char>,
    pub format: Seq<char>,
    pub compatible: bool,
}

impl View for EndpointDescriptor {
    type V = EndpointDescriptorView;

    open spec fn view(&self) -> EndpointDescriptorView {
        EndpointDescriptorView {
            id: self.id@,
            name: self.name@,
            format: self.format@,
            compatible: self.compatible,
        }
    }
}

impl DeepView for EndpointDescriptor {
    type V = EndpointDescriptorView;

    open spec fn deep_view(&self) -> EndpointDescriptorView {
        self@
    }
}

impl Clone for EndpointDescriptor {
    fn clone(&self) -> (copy: Self)
        ensures
            copy@ == self@,
    {
        EndpointDescriptor {
            id: self.id.clone(),
            name: self.name.clone(),
            format: self.format.clone(),
            compatible: self.compatible,
        }
    }
}

/// The endpoints that can be chosen, by direction.
#[derive(Debug)]
pub struct EndpointCatalog {
    pub capture: Vec<EndpointDescriptor>,
    pub render: Vec<EndpointDescriptor>,
}

/// A catalog with its texts by characters.
pub struct EndpointCatalogView {
    pub capture: Seq<EndpointDescriptorView>,
    pub render: Seq<EndpointDescriptorView>,
}

impl View for EndpointCatalog {
    type V = EndpointCatalogView;

    open spec fn view(&self) -> EndpointCatalogView {
        EndpointCatalogView { capture: self.capture.deep_view(), render: self.render.deep_view() }
    }
}

impl EndpointCatalogView {
    /// The catalog without endpoints.
    pub open spec fn empty() -> EndpointCatalogView {
        EndpointCatalogView { capture: Seq::empty(), render: Seq::empty() }
    }

    /// The endpoints of one direction.
    pub open spec fn of(self, flow: Flow) -> Seq<EndpointDescriptorView> {
        match flow {
            Flow::Capture => self.capture,
            Flow::Render => self.render,
        }
    }
}

impl Default for EndpointCatalog {
    fn default() -> (catalog: Self)
        ensures
            catalog@ == EndpointCatalogView::empty(),
    {
        let catalog = EndpointCatalog { capture: Vec::new(), render: Vec::new() };
        assert(catalog.capture.deep_view() =~= Seq::<EndpointDescriptorView>::empty());
        assert(catalog.render.deep_view() =~= Seq::<EndpointDescriptorView>::empty());
        catalog
    }
}

impl AudioDeviceView {
    /// Whether a device is listed in a direction: it has an identifier and a name, and it moves
    /// audio that way.
    pub open spec fn listed(self, flow: Flow) -> bool {
        self.id is Ok && self.name is Ok && self.supports(flow)
    }

    /// The entry of a listed device. A device without a format is listed all the same, as not
    /// compatible.
    pub open spec fn entry(self, flow: Flow) -> EndpointDescriptorView {
        EndpointDescriptorView {
            id: self.id->Ok_0,
            name: self.name->Ok_0,
            format: match self.format(flow) {
                Ok(format) => format.described(),
                Err(error) => "unavailable: "@ + error,
            },
            compatible: match self.format(flow) {
                Ok(format) => format.compatible(flow),
                Err(error) => false,
            },
        }
    }
}

/// The entries of all listed devices of a direction, in the order of the devices.
pub open spec fn entries(devices: Seq<AudioDeviceView>, flow: Flow) -> Seq<EndpointDescriptorView>
    decreases devices.len(),
{
    if devices.len() == 0 {
        Seq::empty()
    } else if devices.last().listed(flow) {
        entries(devices.drop_last(), flow).push(devices.last().entry(flow))
    } else {
        entries(devices.drop_last(), flow)
    }
}

/// What endpoints are ordered by.
pub open spec fn order_key(endpoint: EndpointDescriptorView) -> Seq<char> {
    lowercase(endpoint.name)
}

/// Whether `places` tells, for every position of `after`, where its entry stood in `before`, so
/// that `after` is in order of the lower-case names and entries with equal ones keep their order.
pub open spec fn orders_stably(
    before: Seq<EndpointDescriptorView>,
    after: Seq<EndpointDescriptorView>,
    places: Seq<int>,
) -> bool {
    &&& after.len() == before.len()
    &&& places.len() == before.len()
    &&& forall|i: int|
        #![trigger places[i]]
        0 <= i < places.len() ==> 0 <= places[i] < before.len() && after[i] == before[places[i]]
    &&& forall|i: int, j: int|
        #![trigger places[i], places[j]]
        0 <= i < j < places.len() ==> {
            &&& places[i] != places[j]
            &&& !text_before(order_key(after[j]), order_key(after[i]))
            &&& order_key(after[i]) == order_key(after[j]) ==> places[i] < places[j]
        }
}

/// Whether `after` is `before` in order of the lower-case names, entries with equal ones in the
/// order that they had.
pub open spec fn stably_ordered(
    before: Seq<EndpointDescriptorView>,
    after: Seq<EndpointDescriptorView>,
) -> bool {
    exists|places: Seq<int>| orders_stably(before, after, places)
}

proof fn key_order_is_transitive(one: Seq<char>, two: Seq<char>, three: Seq<char>)
    requires
        !text_before(two, one),
        !text_before(three, two),
    ensures
        !text_before(three, one),
{
    if text_before(three, one) {
        if one == two {
        } else {
            text_before_is_total(one, two);
            text_before_is_transitive(three, one, two);
        }
    }
}

proof fn insertion_keeps_order(
    before: Seq<EndpointDescriptorView>,
    list: Seq<EndpointDescriptorView>,
    item: EndpointDescriptorView,
    at: int,
)
    requires
        stably_ordered(before, list),
        0 <= at <= list.len(),
        forall|i: int|
            0 <= i < at ==> !text_before(order_key(item), order_key(#[trigger] list[i])),
        at < list.len() ==> text_before(order_key(item), order_key(list[at])),
    ensures
        stably_ordered(before.push(item), list.insert(at, item)),
{
    let places = choose|places: Seq<int>| orders_stably(before, list, places);
    let wider = places.insert(at, before.len() as int);
    let source = before.push(item);
    let target = list.insert(at, item);
    assert forall|i: int, j: int| #![trigger wider[i], wider[j]] 0 <= i < j < wider.len() implies {
        &&& wider[i] != wider[j]
        &&& !text_before(order_key(target[j]), order_key(target[i]))
        &&& order_key(target[i]) == order_key(target[j]) ==> wider[i] < wider[j]
    } by {
        let p = if i < at { i } else { i - 1 };
        let q = if j < at { j } else { j - 1 };
        if i == at {
            assert(target[j] == list[q]);
            assert(wider[j] == places[q]);
            if q > at {
                assert(!text_before(order_key(list[q]), order_key(list[at]))) by {
                    assert(places[at] != places[q]);
                }
            } else {
                text_before_is_irreflexive(order_key(list[at]));
            }
            // Everything from the place of insertion on has a later name.
            assert(text_before(order_key(item), order_key(list[q]))) by {
                if !text_before(order_key(item), order_key(list[q])) {
                    key_order_is_transitive(
                        order_key(list[at]),
                        order_key(list[q]),
                        order_key(item),
                    );
                }
            }
            text_before_is_irreflexive(order_key(item));
            if text_before(order_key(list[q]), order_key(item)) {
                text_before_is_transitive(
                    order_key(item),
                    order_key(list[q]),
                    order_key(item),
                );
            }
        } else if j == at {
            assert(target[i] == list[p]);
            assert(wider[i] == places[p]);
        } else {
            assert(target[i] == list[p] && target[j] == list[q]);
            assert(wider[i] == places[p] && wider[j] == places[q]);
        }
    }
    assert(orders_stably(source, target, wider));
}

/// Puts an endpoint behind all whose lower-case name does not come after its own.
fn insert_ordered(
    list: &mut Vec<EndpointDescriptor>,
    item: EndpointDescriptor,
    Ghost(before): Ghost<Seq<EndpointDescriptorView>>,
)
    requires
        stably_ordered(before, old(list).deep_view()),
    ensures
        stably_ordered(before.push(item@), final(list).deep_view()),
{
    let key = to_lowercase(item.name.as_str());
    let mut at: usize = 0;
    while at < list.len() && !comes_before(
        key.as_str(),
        to_lowercase(list[at].name.as_str()).as_str(),
    )
        invariant
            at <= list@.len(),
            key@ == order_key(item@),
            forall|i: int|
                0 <= i < at ==> !text_before(
                    order_key(item@),
                    order_key(#[trigger] list.deep_view()[i]),
                ),
        decreases list@.len() - at,
    {
        at = at + 1;
    }
    proof {
        insertion_keeps_order(before, list.deep_view(), item@, at as int);
    }
    let ghost earlier = list.deep_view();
    let ghost inserted = item@;
    list.insert(at, item);
    assert(list.deep_view() =~= earlier.insert(at as int, inserted));
}

fn endpoint_entry(device: &AudioDevice, id: &String, name: &String, flow: Flow) -> (entry:
    EndpointDescriptor)
    requires
        device@.id == Ok::<Seq<char>, Seq<char>>(id@),
        device@.name == Ok::<Seq<char>, Seq<char>>(name@),
    ensures
        entry@ == device@.entry(flow),
{
    match stream_config(device, flow) {
        Ok(config) => EndpointDescriptor {
            id: id.clone(),
            name: name.clone(),
            format: format_config(&config),
            compatible: is_compatible_format(&config, flow),
        },
        Err(error) => {
            let mut format = "unavailable: ".to_owned();
            format.append(error.as_str());
            EndpointDescriptor { id: id.clone(), name: name.clone(), format, compatible: false }
        },
    }
}

/// Lists the endpoints of both directions in order of their names.
pub fn catalog_of(devices: &Vec<AudioDevice>) -> (catalog: EndpointCatalog)
    ensures
        stably_ordered(entries(devices.deep_view(), Flow::Capture), catalog@.capture),
        stably_ordered(entries(devices.deep_view(), Flow::Render), catalog@.render),
{
    let mut catalog = EndpointCatalog::default();
    let mut index: usize = 0;
    let ghost all = devices.deep_view();
    proof {
        let nothing = Seq::<EndpointDescriptorView>::empty();
        assert(all.take(0) =~= Seq::empty());
        assert(orders_stably(nothing, nothing, Seq::<int>::empty()));
    }
    while index < devices.len()
        invariant
            index <= devices@.len(),
            all == devices.deep_view(),
            stably_ordered(
                entries(all.take(index as int), Flow::Capture),
                catalog.capture.deep_view(),
            ),
            stably_ordered(
                entries(all.take(index as int), Flow::Render),
                catalog.render.deep_view(),
            ),
        decreases devices@.len() - index,
    {
        let device = &devices[index];
        let ghost sofar = all.take(index as int);
        assert(all.take(index + 1).drop_last() =~= sofar);
        assert(all.take(index + 1).last() == device@);
        match (&device.id, &device.name) {
            (Ok(id), Ok(name)) => {
                if supports_flow(device, Flow::Capture) {
                    insert_ordered(
                        &mut catalog.capture,
                        endpoint_entry(device, id, name, Flow::Capture),
                        Ghost(entries(sofar, Flow::Capture)),
                    );
                }
                if supports_flow(device, Flow::Render) {
                    insert_ordered(
                        &mut catalog.render,
                        endpoint_entry(device, id, name, Flow::Render),
                        Ghost(entries(sofar, Flow::Render)),
                    );
                }
            },
            _ => {},
        }
        index = index + 1;
    }
    assert(all.take(all.len() as int) =~= all);
    catalog
}

/// The devices that the system lists, or why it could not.
pub open spec fn listing_view(listing: Result<Vec<AudioDevice>, String>) -> Result<
    Seq<AudioDeviceView>,
    Seq<char>,
> {
    match listing {
        Ok(devices) => Ok(devices.deep_view()),
        Err(error) => Err(error@),
    }
}

/// The complaint that the devices could not be listed.
pub open spec fn enumeration_failure(error: Seq<char>) -> Seq<char> {
    "failed to enumerate WASAPI endpoints: "@ + error
}

fn enumeration_message(error: &String) -> (message: String)
    ensures
        message@ == enumeration_failure(error@),
{
    let mut message = "failed to enumerate WASAPI endpoints: ".to_owned();
    message.append(error.as_str());
    message
}

/// Lists the endpoints of both directions in order of their names.
pub fn endpoint_catalog(listing: &Result<Vec<AudioDevice>, String>) -> (outcome: Result<
    EndpointCatalog,
    String,
>)
    ensures
        match listing_view(*listing) {
            Ok(devices) => outcome matches Ok(catalog) && stably_ordered(
                entries(devices, Flow::Capture),
                catalog@.capture,
            ) && stably_ordered(entries(devices, Flow::Render), catalog@.render),
            Err(error) => outcome matches Err(message) && message@ == enumeration_failure(error),
        },
{
    match listing {
        Ok(devices) => Ok(catalog_of(devices)),
        Err(error) => Err(enumeration_message(error)),
    }
}

/// What looking a selector up as an identifier came to.
#[derive(Debug)]
pub enum IdLookup {
    /// The selector does not have the form of an identifier.
    NotAnId,
    /// It has, but no active device bears it.
    Missing,
    /// The device that bears it.
    Found(AudioDevice),
}

/// A lookup with its texts by characters.
pub enum IdLookupView {
    NotAnId,
    Missing,
    Found(AudioDeviceView),
}

impl View for IdLookup {
    type V = IdLookupView;

    open spec fn view(&self) -> IdLookupView {
        match self {
            IdLookup::NotAnId => IdLookupView::NotAnId,
            IdLookup::Missing => IdLookupView::Missing,
            IdLookup::Found(device) => IdLookupView::Found(device@),
        }
    }
}

impl AudioDeviceView {
    /// Whether a selector names a device exactly, but for the case of ASCII letters.
    pub open spec fn named_exactly(self, selector: Seq<char>, flow: Flow) -> bool {
        &&& self.supports(flow)
        &&& self.name matches Ok(name) && equal_ignoring_ascii_case(name, selector)
    }

    /// Whether a selector stands in the name of a device, case aside, and is not the whole of it.
    pub open spec fn named_partly(self, selector: Seq<char>, flow: Flow) -> bool {
        &&& self.supports(flow)
        &&& self.name matches Ok(name) && !equal_ignoring_ascii_case(name, selector)
            && holds_text(lowercase(name), lowercase(selector))
    }
}

/// The devices that a selector names exactly.
pub open spec fn exact_matches(
    devices: Seq<AudioDeviceView>,
    selector: Seq<char>,
    flow: Flow,
) -> Seq<AudioDeviceView> {
    devices.filter(|device: AudioDeviceView| device.named_exactly(selector, flow))
}

/// The devices that a selector names in part.
pub open spec fn partial_matches(
    devices: Seq<AudioDeviceView>,
    selector: Seq<char>,
    flow: Flow,
) -> Seq<AudioDeviceView> {
    devices.filter(|device: AudioDeviceView| device.named_partly(selector, flow))
}

/// The devices that a selector names: those that it names in part count only where it names none
/// exactly.
pub open spec fn selector_matches(
    devices: Seq<AudioDeviceView>,
    selector: Seq<char>,
    flow: Flow,
) -> Seq<AudioDeviceView> {
    if exact_matches(devices, selector, flow).len() == 0 {
        partial_matches(devices, selector, flow)
    } else {
        exact_matches(devices, selector, flow)
    }
}

/// The names of devices, one behind another.
pub open spec fn device_names(devices: Seq<AudioDeviceView>) -> Seq<Seq<char>> {
    Seq::new(devices.len(), |i: int| devices[i].name->Ok_0)
}

/// The device that a selector names, or why it names none.
pub open spec fn resolved(
    lookup: IdLookupView,
    listing: Result<Seq<AudioDeviceView>, Seq<char>>,
    selector: Seq<char>,
    flow: Flow,
) -> Result<AudioDeviceView, Seq<char>> {
    match lookup {
        IdLookupView::Missing => Err("no active endpoint has ID '"@ + selector + "'"@),
        IdLookupView::Found(device) => if device.supports(flow) {
            Ok(device)
        } else {
            Err("endpoint exists but does not support "@ + flow.spec_name() + " audio"@)
        },
        IdLookupView::NotAnId => match listing {
            Err(error) => Err(enumeration_failure(error)),
            Ok(devices) => {
                let matches = selector_matches(devices, selector, flow);
                if matches.len() == 0 {
                    Err(
                        "no active "@ + flow.spec_name() + " endpoint matches '"@ + selector
                            + "'"@,
                    )
                } else if matches.len() == 1 {
                    Ok(matches[0])
                } else {
                    Err(
                        "selector '"@ + selector + "' is ambiguous; it matches: "@ + joined(
                            device_names(matches),
                            ", "@,
                        ),
                    )
                }
            },
        },
    }
}

/// A device, or why there is none, with texts by their characters.
pub open spec fn device_result(result: Result<AudioDevice, String>) -> Result<
    AudioDeviceView,
    Seq<char>,
> {
    match result {
        Ok(device) => Ok(device@),
        Err(error) => Err(error@),
    }
}

/// Checks that a device found by its identifier moves audio in the direction.
pub fn ensure_flow(device: &AudioDevice, flow: Flow) -> (outcome: Result<(), String>)
    ensures
        outcome is Ok <==> device@.supports(flow),
        outcome matches Err(message) ==> message@ == "endpoint exists but does not support "@
            + flow.spec_name() + " audio"@,
{
    if supports_flow(device, flow) {
        Ok(())
    } else {
        let mut message = "endpoint exists but does not support ".to_owned();
        message.append(flow.name());
        message.append(" audio");
        Err(message)
    }
}

fn names_of(devices: &Vec<AudioDevice>) -> (names: Vec<String>)
    requires
        forall|i: int| 0 <= i < devices@.len() ==> (#[trigger] devices@[i])@.name is Ok,
    ensures
        names.deep_view() == device_names(devices.deep_view()),
{
    let mut names: Vec<String> = Vec::new();
    let mut index: usize = 0;
    while index < devices.len()
        invariant
            index <= devices@.len(),
            names@.len() == index,
            forall|i: int| 0 <= i < devices@.len() ==> (#[trigger] devices@[i])@.name is Ok,
            forall|i: int|
                0 <= i < index ==> (#[trigger] names@[i])@ == devices@[i]@.name->Ok_0,
        decreases devices@.len() - index,
    {
        match &devices[index].name {
            Ok(name) => names.push(name.clone()),
            Err(_) => {
                assert(devices@[index as int]@.name is Ok);
                names.push(String::new());
            },
        }
        index = index + 1;
    }
    assert(names.deep_view() =~= device_names(devices.deep_view()));
    names
}

fn resolve_by_name(devices: &Vec<AudioDevice>, selector: &str, flow: Flow) -> (outcome: Result<
    AudioDevice,
    String,
>)
    ensures
        device_result(outcome) == resolved(
            IdLookupView::NotAnId,
            Ok(devices.deep_view()),
            selector@,
            flow,
        ),
{
    let folded = to_lowercase(selector);
    let mut exact: Vec<AudioDevice> = Vec::new();
    let mut partial: Vec<AudioDevice> = Vec::new();
    let ghost all = devices.deep_view();
    let ghost exactly = |device: AudioDeviceView| device.named_exactly(selector@, flow);
    let ghost partly = |device: AudioDeviceView| device.named_partly(selector@, flow);
    let mut index: usize = 0;
    proof {
        reveal(Seq::filter);
        assert(exact.deep_view() =~= all.take(0).filter(exactly));
        assert(partial.deep_view() =~= all.take(0).filter(partly));
    }
    while index < devices.len()
        invariant
            index <= devices@.len(),
            folded@ == lowercase(selector@),
            all == devices.deep_view(),
            exactly == (|device: AudioDeviceView| device.named_exactly(selector@, flow)),
            partly == (|device: AudioDeviceView| device.named_partly(selector@, flow)),
            exact.deep_view() == all.take(index as int).filter(exactly),
            partial.deep_view() == all.take(index as int).filter(partly),
            forall|i: int| 0 <= i < exact@.len() ==> (#[trigger] exact@[i])@.name is Ok,
            forall|i: int| 0 <= i < partial@.len() ==> (#[trigger] partial@[i])@.name is Ok,
        decreases devices@.len() - index,
    {
        let device = &devices[index];
        let ghost exact_before = exact.deep_view();
        let ghost partial_before = partial.deep_view();
        proof {
            reveal(Seq::filter);
            assert(all.take(index + 1).drop_last() =~= all.take(index as int));
            assert(all.take(index + 1).last() == device@);
        }
        if supports_flow(device, flow) {
            match &device.name {
                Ok(name) => {
                    if eq_ignore_ascii_case(name.as_str(), selector) {
                        exact.push(device.clone());
                        assert(exact.deep_view() =~= exact_before.push(device@));
                    } else if contains_text(
                        to_lowercase(name.as_str()).as_str(),
                        folded.as_str(),
                    ) {
                        partial.push(device.clone());
                        assert(partial.deep_view() =~= partial_before.push(device@));
                    }
                },
                Err(_) => {},
            }
        }
        index = index + 1;
    }
    assert(all.take(all.len() as int) =~= all);
    let mut matches = if exact.len() == 0 {
        partial
    } else {
        exact
    };
    assert(matches.deep_view() == selector_matches(all, selector@, flow));
    if matches.len() == 0 {
        let mut message = "no active ".to_owned();
        message.append(flow.name());
        message.append(" endpoint matches '");
        message.append(selector);
        message.append("'");
        Err(message)
    } else if matches.len() == 1 {
        assert(matches.deep_view()[0] == matches@[0]@);
        Ok(matches.remove(0))
    } else {
        let mut message = "selector '".to_owned();
        message.append(selector);
        message.append("' is ambiguous; it matches: ");
        message.append(join(&names_of(&matches), ", ").as_str());
        Err(message)
    }
}

/// Finds the device that a selector names: by its identifier where the selector is one, else by its
/// name.
pub fn resolve_device(
    lookup: &IdLookup,
    listing: &Result<Vec<AudioDevice>, String>,
    selector: &str,
    flow: Flow,
) -> (outcome: Result<AudioDevice, String>)
    ensures
        device_result(outcome) == resolved(lookup@, listing_view(*listing), selector@, flow),
{
    match lookup {
        IdLookup::Missing => {
            let mut message = "no active endpoint has ID '".to_owned();
            message.append(selector);
            message.append("'");
            Err(message)
        },
        IdLookup::Found(device) => match ensure_flow(device, flow) {
            Ok(()) => Ok(device.clone()),
            Err(message) => Err(message),
        },
        IdLookup::NotAnId => match listing {
            Ok(devices) => resolve_by_name(devices, selector, flow),
            Err(error) => Err(enumeration_message(error)),
        },
    }
}

/// The devices of a bridge.
#[derive(Debug)]
pub struct ResolvedEndpoints {
    pub mic: AudioDevice,
    pub reference: AudioDevice,
    pub output: AudioDevice,
}

/// How the three selectors of a bridge were looked up as identifiers.
#[derive(Debug)]
pub struct EndpointLookups {
    pub mic: IdLookup,
    pub reference: IdLookup,
    pub output: IdLookup,
}

/// The complaint that a selector could not be resolved.
pub open spec fn resolution_failure(
    role: Seq<char>,
    selector: Seq<char>,
    error: Seq<char>,
) -> Seq<char> {
    "could not resolve "@ + role + " '"@ + selector + "': "@ + error
}

fn resolution_message(role: &str, selector: &str, error: &str) -> (message: String)
    ensures
        message@ == resolution_failure(role@, selector@, error@),
{
    let mut message = "could not resolve ".to_owned();
    message.append(role);
    message.append(" '");
    message.append(selector);
    message.append("': ");
    message.append(error);
    message
}

/// The three devices of a bridge, microphone, reference and output, or the first complaint.
pub open spec fn endpoints_found(
    args: EndpointArgsView,
    mic: IdLookupView,
    reference: IdLookupView,
    output: IdLookupView,
    listing: Result<Seq<AudioDeviceView>, Seq<char>>,
) -> Result<(AudioDeviceView, AudioDeviceView, AudioDeviceView), Seq<char>> {
    match resolved(mic, listing, args.mic, Flow::Capture) {
        Err(error) => Err(resolution_failure("microphone"@, args.mic, error)),
        Ok(first) => match resolved(
            reference,
            listing,
            args.reference,
            reference_flow_of(args.reference_mode),
        ) {
            Err(error) => Err(resolution_failure("reference"@, args.reference, error)),
            Ok(second) => match resolved(output, listing, args.output, Flow::Render) {
                Err(error) => Err(resolution_failure("output"@, args.output, error)),
                Ok(third) => Ok((first, second, third)),
            },
        },
    }
}

/// The devices of a bridge are found exactly where each of its three selectors resolves on its own:
/// the microphone to a device that captures, the output to one that renders, and the reference to
/// one that renders for a loopback and captures else. Each selector goes with its own lookup.
pub proof fn each_selector_finds_its_own_device(
    args: EndpointArgsView,
    mic: IdLookupView,
    reference: IdLookupView,
    output: IdLookupView,
    listing: Result<Seq<AudioDeviceView>, Seq<char>>,
)
    ensures
        ({
            let found = endpoints_found(args, mic, reference, output, listing);
            let heard = if args.reference_mode == ReferenceMode::Loopback {
                Flow::Render
            } else {
                Flow::Capture
            };
            &&& found is Ok <==> {
                &&& resolved(mic, listing, args.mic, Flow::Capture) is Ok
                &&& resolved(reference, listing, args.reference, heard) is Ok
                &&& resolved(output, listing, args.output, Flow::Render) is Ok
            }
            &&& found matches Ok(devices) ==> {
                &&& resolved(mic, listing, args.mic, Flow::Capture) == Ok::<
                    AudioDeviceView,
                    Seq<char>,
                >(devices.0)
                &&& resolved(reference, listing, args.reference, heard) == Ok::<
                    AudioDeviceView,
                    Seq<char>,
                >(devices.1)
                &&& resolved(output, listing, args.output, Flow::Render) == Ok::<
                    AudioDeviceView,
                    Seq<char>,
                >(devices.2)
                &&& devices.0.supports_input
                &&& devices.2.supports_output
                &&& if args.reference_mode == ReferenceMode::Loopback {
                    devices.1.supports_output
                } else {
                    devices.1.supports_input
                }
            }
        }),
{
    let heard = reference_flow_of(args.reference_mode);
    resolution_honours_the_direction(mic, listing, args.mic, Flow::Capture);
    resolution_honours_the_direction(reference, listing, args.reference, heard);
    resolution_honours_the_direction(output, listing, args.output, Flow::Render);
}

/// Finds the three devices of a bridge. The microphone is looked for first, then the reference,
/// then the output; the first that cannot be found is complained of.
pub fn resolve_endpoints(
    args: &EndpointArgs,
    lookups: &EndpointLookups,
    listing: &Result<Vec<AudioDevice>, String>,
) -> (outcome: Result<ResolvedEndpoints, String>)
    ensures
        ({
            let devices = listing_view(*listing);
            let mic = resolved(lookups.mic@, devices, args.mic@, Flow::Capture);
            let reference = resolved(
                lookups.reference@,
                devices,
                args.reference@,
                reference_flow_of(args.reference_mode),
            );
            let output = resolved(lookups.output@, devices, args.output@, Flow::Render);
            match outcome {
                Ok(found) => {
                    &&& mic == Ok::<AudioDeviceView, Seq<char>>(found.mic@)
                    &&& reference == Ok::<AudioDeviceView, Seq<char>>(found.reference@)
                    &&& output == Ok::<AudioDeviceView, Seq<char>>(found.output@)
                },
                Err(message) => if mic is Err {
                    message@ == resolution_failure("microphone"@, args.mic@, mic->Err_0)
                } else if reference is Err {
                    message@ == resolution_failure(
                        "reference"@,
                        args.reference@,
                        reference->Err_0,
                    )
                } else {
                    &&& output is Err
                    &&& message@ == resolution_failure("output"@, args.output@, output->Err_0)
                },
            }
        }),
        match outcome {
            Ok(found) => endpoints_found(
                args@,
                lookups.mic@,
                lookups.reference@,
                lookups.output@,
                listing_view(*listing),
            ) == Ok::<(AudioDeviceView, AudioDeviceView, AudioDeviceView), Seq<char>>(
                (found.mic@, found.reference@, found.output@),
            ),
            Err(message) => endpoints_found(
                args@,
                lookups.mic@,
                lookups.reference@,
                lookups.output@,
                listing_view(*listing),
            ) == Err::<(AudioDeviceView, AudioDeviceView, AudioDeviceView), Seq<char>>(message@),
        },
        outcome matches Ok(found) ==> {
            &&& found.mic@.supports_input
            &&& found.output@.supports_output
            &&& args.reference_mode == ReferenceMode::Loopback ==> found.reference@.supports_output
            &&& args.reference_mode == ReferenceMode::Capture ==> found.reference@.supports_input
        },
{
    proof {
        let devices = listing_view(*listing);
        let flow = reference_flow_of(args.reference_mode);
        resolution_honours_the_direction(lookups.mic@, devices, args.mic@, Flow::Capture);
        resolution_honours_the_direction(lookups.reference@, devices, args.reference@, flow);
        resolution_honours_the_direction(lookups.output@, devices, args.output@, Flow::Render);
    }
    let mic = match resolve_device(&lookups.mic, listing, args.mic.as_str(), Flow::Capture) {
        Ok(device) => device,
        Err(error) => {
            return Err(resolution_message("microphone", args.mic.as_str(), error.as_str()));
        },
    };
    let flow = reference_flow(args.reference_mode);
    let reference = match resolve_device(
        &lookups.reference,
        listing,
        args.reference.as_str(),
        flow,
    ) {
        Ok(device) => device,
        Err(error) => {
            return Err(resolution_message("reference", args.reference.as_str(), error.as_str()));
        },
    };
    let output = match resolve_device(&lookups.output, listing, args.output.as_str(), Flow::Render) {
        Ok(device) => device,
        Err(error) => {
            return Err(resolution_message("output", args.output.as_str(), error.as_str()));
        },
    };
    Ok(ResolvedEndpoints { mic, reference, output })
}

/// A selector that is no identifier never resolves to a device that does not bear it in its name
/// and move audio in the direction asked for.
pub proof fn resolution_by_name_honours_the_selector(
    devices: Seq<AudioDeviceView>,
    selector: Seq<char>,
    flow: Flow,
)
    ensures
        resolved(IdLookupView::NotAnId, Ok(devices), selector, flow) matches Ok(device) ==> {
            &&& devices.contains(device)
            &&& device.supports(flow)
            &&& device.named_exactly(selector, flow) || device.named_partly(selector, flow)
        },
{
    if resolved(IdLookupView::NotAnId, Ok(devices), selector, flow) is Ok {
        let matches = selector_matches(devices, selector, flow);
        let device = matches[0];
        let exactly = |device: AudioDeviceView| device.named_exactly(selector, flow);
        let partly = |device: AudioDeviceView| device.named_partly(selector, flow);
        assert(matches.contains(device));
        if exact_matches(devices, selector, flow).len() == 0 {
            devices.lemma_filter_pred(partly, 0);
            devices.lemma_filter_contains_rev(partly, device);
        } else {
            devices.lemma_filter_pred(exactly, 0);
            devices.lemma_filter_contains_rev(exactly, device);
        }
    }
}

/// A name that one device bears exactly resolves to that device, however many others hold it in
/// part.
pub proof fn an_exact_name_wins(
    devices: Seq<AudioDeviceView>,
    device: AudioDeviceView,
    selector: Seq<char>,
    flow: Flow,
)
    requires
        exact_matches(devices, selector, flow) == seq![device],
    ensures
        resolved(IdLookupView::NotAnId, Ok(devices), selector, flow) == Ok::<
            AudioDeviceView,
            Seq<char>,
        >(device),
{
}

/// Whatever a selector resolves to moves audio in the direction asked for, be it found by its
/// identifier or by its name.
pub proof fn resolution_honours_the_direction(
    lookup: IdLookupView,
    listing: Result<Seq<AudioDeviceView>, Seq<char>>,
    selector: Seq<char>,
    flow: Flow,
)
    ensures
        resolved(lookup, listing, selector, flow) matches Ok(device) ==> device.supports(flow),
{
    if lookup is NotAnId && listing is Ok {
        resolution_by_name_honours_the_selector(listing->Ok_0, selector, flow);
    }
}

/// The catalog calls an endpoint compatible exactly where its format passes validation.
pub proof fn a_compatible_entry_validates(device: AudioDeviceView, label: Seq<char>, flow: Flow)
    requires
        device.listed(flow),
    ensures
        device.entry(flow).compatible <==> validated(label, device, flow) is Ok,
{
}

/// Whether a position is the only one of a list at which something holds.
pub open spec fn only_at<T>(list: Seq<T>, holds: spec_fn(T) -> bool, at: int) -> bool {
    &&& 0 <= at < list.len()
    &&& holds(list[at])
    &&& forall|i: int| 0 <= i < list.len() && i != at ==> !holds(#[trigger] list[i])
}

proof fn filtered_none<T>(list: Seq<T>, holds: spec_fn(T) -> bool)
    ensures
        list.filter(holds).len() == 0 <==> forall|i: int|
            0 <= i < list.len() ==> !holds(#[trigger] list[i]),
    decreases list.len(),
{
    reveal(Seq::filter);
    if list.len() > 0 {
        let rest = list.drop_last();
        filtered_none(rest, holds);
        if list.filter(holds).len() == 0 {
            assert forall|i: int| 0 <= i < list.len() implies !holds(#[trigger] list[i]) by {
                if i < rest.len() {
                    assert(rest[i] == list[i]);
                }
            }
        } else if !holds(list.last()) {
            let i = choose|i: int| 0 <= i < rest.len() && holds(#[trigger] rest[i]);
            assert(list[i] == rest[i]);
        }
    }
}

proof fn filtered_one<T>(list: Seq<T>, holds: spec_fn(T) -> bool)
    ensures
        list.filter(holds).len() == 1 ==> exists|at: int|
            #[trigger] only_at(list, holds, at) && list.filter(holds)[0] == list[at],
        forall|at: int| #[trigger]
            only_at(list, holds, at) ==> list.filter(holds) == seq![list[at]],
    decreases list.len(),
{
    reveal(Seq::filter);
    if list.len() > 0 {
        let rest = list.drop_last();
        let last = list.len() - 1;
        filtered_one(rest, holds);
        filtered_none(rest, holds);
        assert forall|i: int| 0 <= i < rest.len() implies rest[i] == list[i] by {}
        if list.filter(holds).len() == 1 {
            if holds(list.last()) {
                assert forall|i: int| 0 <= i < list.len() && i != last implies !holds(
                    #[trigger] list[i],
                ) by {
                    assert(!holds(rest[i]));
                }
                assert(only_at(list, holds, last));
            } else {
                let at = choose|at: int|
                    #[trigger] only_at(rest, holds, at) && rest.filter(holds)[0] == rest[at];
                assert forall|i: int| 0 <= i < list.len() && i != at implies !holds(
                    #[trigger] list[i],
                ) by {
                    if i < last {
                        assert(!holds(rest[i]));
                    }
                }
                assert(only_at(list, holds, at));
            }
        }
        assert forall|at: int| #[trigger] only_at(list, holds, at) implies list.filter(holds)
            == seq![list[at]] by {
            if at == last {
                assert forall|i: int| 0 <= i < rest.len() implies !holds(#[trigger] rest[i]) by {
                    assert(!holds(list[i]));
                }
                assert(list.filter(holds) =~= seq![list[at]]);
            } else {
                assert forall|i: int| 0 <= i < rest.len() && i != at implies !holds(
                    #[trigger] rest[i],
                ) by {
                    assert(!holds(list[i]));
                }
                assert(holds(rest[at]));
                assert(only_at(rest, holds, at));
                assert(!holds(list[last]));
            }
        }
    }
}

/// What it is for a selector to name a device: the device moves audio in the direction, and the
/// selector is its name, but for the case of ASCII letters, or else stands somewhere in its name,
/// case aside. Never both.
pub proof fn naming_goes_by_direction_and_name(
    device: AudioDeviceView,
    selector: Seq<char>,
    flow: Flow,
)
    ensures
        ({
            let moves = if flow == Flow::Capture {
                device.supports_input
            } else {
                device.supports_output
            };
            let name = device.name->Ok_0;
            let exact = device.name is Ok && name.len() == selector.len() && forall|i: int|
                0 <= i < name.len() ==> ascii_lower(#[trigger] name[i]) == ascii_lower(selector[i]);
            &&& device.named_exactly(selector, flow) <==> moves && exact
            &&& device.named_partly(selector, flow) <==> moves && device.name is Ok && !exact
                && exists|at: int| #[trigger]
                stands_at(lowercase(name), lowercase(selector), at)
        }),
{
}

/// A selector looked up by name resolves to a device only where it names no other: either exactly
/// one position of the listing is named exactly, or none is and exactly one is named in part. There
/// it does resolve, to the device at that position; where it names none or several, it never does.
pub proof fn a_name_resolves_only_to_the_one_device_it_names(
    devices: Seq<AudioDeviceView>,
    selector: Seq<char>,
    flow: Flow,
)
    ensures
        ({
            let exactly = |device: AudioDeviceView| device.named_exactly(selector, flow);
            let partly = |device: AudioDeviceView| device.named_partly(selector, flow);
            let outcome = resolved(IdLookupView::NotAnId, Ok(devices), selector, flow);
            let no_exact = forall|i: int|
                0 <= i < devices.len() ==> !(#[trigger] devices[i]).named_exactly(selector, flow);
            &&& outcome matches Ok(device) ==> exists|at: int|
                {
                    &&& 0 <= at < devices.len()
                    &&& #[trigger] devices[at] == device
                    &&& only_at(devices, exactly, at) || (no_exact && only_at(devices, partly, at))
                }
            &&& forall|at: int| #[trigger]
                only_at(devices, exactly, at) ==> outcome == Ok::<AudioDeviceView, Seq<char>>(
                    devices[at],
                )
            &&& forall|at: int| #[trigger]
                only_at(devices, partly, at) && no_exact ==> outcome == Ok::<
                    AudioDeviceView,
                    Seq<char>,
                >(devices[at])
            &&& forall|i: int, j: int|
                0 <= i < j < devices.len() && (#[trigger] devices[i]).named_exactly(selector, flow)
                    && (#[trigger] devices[j]).named_exactly(selector, flow) ==> outcome is Err
            &&& forall|i: int, j: int|
                0 <= i < j < devices.len() && no_exact && (#[trigger] devices[i]).named_partly(
                    selector,
                    flow,
                ) && (#[trigger] devices[j]).named_partly(selector, flow) ==> outcome is Err
        }),
{
    let exactly = |device: AudioDeviceView| device.named_exactly(selector, flow);
    let partly = |device: AudioDeviceView| device.named_partly(selector, flow);
    let outcome = resolved(IdLookupView::NotAnId, Ok(devices), selector, flow);
    filtered_none(devices, exactly);
    filtered_one(devices, exactly);
    filtered_one(devices, partly);
    let no_exact = forall|i: int|
        0 <= i < devices.len() ==> !(#[trigger] devices[i]).named_exactly(selector, flow);
    if no_exact {
        assert forall|i: int| 0 <= i < devices.len() implies !exactly(#[trigger] devices[i]) by {}
    } else {
        let i = choose|i: int|
            0 <= i < devices.len() && (#[trigger] devices[i]).named_exactly(selector, flow);
        assert(exactly(devices[i]));
    }
    assert(no_exact <==> exact_matches(devices, selector, flow).len() == 0);
    if outcome is Ok {
        if no_exact {
            let at = choose|at: int|
                #[trigger] only_at(devices, partly, at) && devices.filter(partly)[0]
                    == devices[at];
            assert(devices[at] == outcome->Ok_0);
        } else {
            let at = choose|at: int|
                #[trigger] only_at(devices, exactly, at) && devices.filter(exactly)[0]
                    == devices[at];
            assert(devices[at] == outcome->Ok_0);
        }
    }
    assert forall|i: int, j: int|
        0 <= i < j < devices.len() && (#[trigger] devices[i]).named_exactly(selector, flow)
            && (#[trigger] devices[j]).named_exactly(selector, flow) implies outcome is Err by {
        assert(exactly(devices[i]) && exactly(devices[j]));
    }
    assert forall|i: int, j: int|
        0 <= i < j < devices.len() && no_exact && (#[trigger] devices[i]).named_partly(
            selector,
            flow,
        ) && (#[trigger] devices[j]).named_partly(selector, flow) implies outcome is Err by {
        assert(partly(devices[i]) && partly(devices[j]));
    }
}

/// A selector that has the form of an identifier stands for the device that bears it and for no
/// other, and only where that device moves audio in the direction; names play no part.
pub proof fn an_identifier_is_never_taken_for_a_name(
    device: AudioDeviceView,
    listing: Result<Seq<AudioDeviceView>, Seq<char>>,
    selector: Seq<char>,
    flow: Flow,
)
    ensures
        resolved(IdLookupView::Missing, listing, selector, flow) is Err,
        ({
            let moves = if flow == Flow::Capture {
                device.supports_input
            } else {
                device.supports_output
            };
            let outcome = resolved(IdLookupView::Found(device), listing, selector, flow);
            &&& moves ==> outcome == Ok::<AudioDeviceView, Seq<char>>(device)
            &&& !moves ==> outcome is Err
        }),
{
}

/// What the bridge can use, in numbers: 48000 samples per second in 32-bit floating point, on one
/// channel or two for capture, and on two for rendering.
pub proof fn usable_formats_in_numbers(format: StreamFormatView)
    ensures
        format.compatible(Flow::Capture) <==> format.sample_rate == 48_000
            && format.encoding == SampleEncodingView::Float32 && 1 <= format.channels <= 2,
        format.compatible(Flow::Render) <==> format.sample_rate == 48_000
            && format.encoding == SampleEncodingView::Float32 && format.channels == 2,
{
}

/// Validation gives a device's own format in the direction, and gives it exactly where the bridge
/// can use it; what is captured is judged by the format for capture alone, what is rendered by the
/// one for rendering.
pub proof fn validation_in_numbers(label: Seq<char>, device: AudioDeviceView, flow: Flow)
    ensures
        ({
            let own = if flow == Flow::Capture {
                device.input
            } else {
                device.output
            };
            let fewest: int = if flow == Flow::Capture {
                1
            } else {
                2
            };
            let outcome = validated(label, device, flow);
            &&& outcome is Ok <==> (own matches Ok(format) && format.sample_rate == 48_000
                && format.encoding == SampleEncodingView::Float32 && fewest <= format.channels
                && format.channels <= 2)
            &&& outcome is Ok ==> outcome == own
        }),
{
}

/// A format that the bridge cannot use is refused for its rate where that is wrong, else for its
/// encoding, else for its channels, and the refusal says what it found.
pub proof fn a_refusal_says_what_is_wrong(label: Seq<char>, device: AudioDeviceView, flow: Flow)
    requires
        validated(label, device, flow) is Err,
        device.format(flow) is Ok,
    ensures
        ({
            let format = device.format(flow)->Ok_0;
            let message = validated(label, device, flow)->Err_0;
            &&& format.sample_rate != 48_000 ==> message == label
                + " must use 48 kHz shared-mode audio, but its default is "@ + digits(
                format.sample_rate as nat,
            ) + " Hz"@
            &&& format.sample_rate == 48_000 ==> match format.encoding {
                SampleEncodingView::Other(name) => message == label
                    + " must use f32 shared-mode audio, but its default is "@ + name,
                SampleEncodingView::Float32 => message == label + (if flow == Flow::Capture {
                    " must expose one or two channels, but it exposes "@
                } else {
                    " must expose two channels, but it exposes "@
                }) + digits(format.channels as nat),
            }
        }),
{
}

/// Every device that has an identifier and a name is listed, once for each direction in which it
/// moves audio, under its own identifier and name; and nothing else is listed.
pub proof fn every_named_device_is_listed(devices: Seq<AudioDeviceView>, flow: Flow)
    ensures
        forall|i: int|
            0 <= i < devices.len() && (#[trigger] devices[i]).id is Ok && devices[i].name is Ok && (
            if flow == Flow::Capture {
                devices[i].supports_input
            } else {
                devices[i].supports_output
            }) ==> entries(devices, flow).contains(devices[i].entry(flow)),
        forall|k: int|
            0 <= k < entries(devices, flow).len() ==> exists|i: int|
                {
                    &&& 0 <= i < devices.len()
                    &&& (#[trigger] devices[i]).id == Ok::<Seq<char>, Seq<char>>(
                        (#[trigger] entries(devices, flow)[k]).id,
                    )
                    &&& devices[i].name == Ok::<Seq<char>, Seq<char>>(entries(devices, flow)[k].name)
                    &&& devices[i].supports(flow)
                },
        entries(devices, flow).len() == devices.filter(
            |device: AudioDeviceView| device.listed(flow),
        ).len(),
    decreases devices.len(),
{
    reveal(Seq::filter);
    let list = entries(devices, flow);
    if devices.len() > 0 {
        let rest = devices.drop_last();
        let last = devices.len() - 1;
        every_named_device_is_listed(rest, flow);
        let before = entries(rest, flow);
        assert forall|i: int|
            0 <= i < devices.len() && (#[trigger] devices[i]).id is Ok && devices[i].name is Ok && (
            if flow == Flow::Capture {
                devices[i].supports_input
            } else {
                devices[i].supports_output
            }) implies list.contains(devices[i].entry(flow)) by {
            if i < last {
                assert(rest[i] == devices[i]);
                let k = choose|k: int|
                    0 <= k < before.len() && before[k] == devices[i].entry(flow);
                assert(list[k] == before[k]);
            } else {
                assert(list.last() == devices[i].entry(flow));
            }
        }
        assert forall|k: int| 0 <= k < list.len() implies exists|i: int|
            {
                &&& 0 <= i < devices.len()
                &&& (#[trigger] devices[i]).id == Ok::<Seq<char>, Seq<char>>(
                    (#[trigger] list[k]).id,
                )
                &&& devices[i].name == Ok::<Seq<char>, Seq<char>>(list[k].name)
                &&& devices[i].supports(flow)
            } by {
            if k < before.len() {
                assert(list[k] == before[k]);
                let i = choose|i: int|
                    {
                        &&& 0 <= i < rest.len()
                        &&& (#[trigger] rest[i]).id == Ok::<Seq<char>, Seq<char>>(before[k].id)
                        &&& rest[i].name == Ok::<Seq<char>, Seq<char>>(before[k].name)
                        &&& rest[i].supports(flow)
                    };
                assert(devices[i] == rest[i]);
            } else {
                assert(devices[last] == devices.last());
            }
        }
    }
}

/// An entry says of a device what validation says of it, in numbers, and never calls an endpoint
/// without a format compatible.
pub proof fn an_entry_tells_whether_the_device_can_be_used(device: AudioDeviceView, flow: Flow)
    requires
        device.id is Ok,
        device.name is Ok,
    ensures
        ({
            let own = if flow == Flow::Capture {
                device.input
            } else {
                device.output
            };
            let fewest: int = if flow == Flow::Capture {
                1
            } else {
                2
            };
            let entry = device.entry(flow);
            &&& device.id == Ok::<Seq<char>, Seq<char>>(entry.id)
            &&& device.name == Ok::<Seq<char>, Seq<char>>(entry.name)
            &&& entry.compatible <==> (own matches Ok(format) && format.sample_rate == 48_000
                && format.encoding == SampleEncodingView::Float32 && fewest <= format.channels
                && format.channels <= 2)
            &&& own is Err ==> begins_with(entry.format, "unavailable:"@)
        }),
{
    let own = device.format(flow);
    if own is Err {
        reveal_strlit("unavailable: ");
        reveal_strlit("unavailable:");
        let text = device.entry(flow).format;
        assert(text.subrange(0, "unavailable:"@.len() as int) =~= "unavailable:"@);
    }
}

/// A catalog is in order: none of its endpoints has a lower-case name that stands before that of one
/// above it, and it holds just what was put in.
pub proof fn a_catalog_is_in_order(
    before: Seq<EndpointDescriptorView>,
    after: Seq<EndpointDescriptorView>,
)
    requires
        stably_ordered(before, after),
    ensures
        after.len() == before.len(),
        forall|i: int, j: int|
            0 <= i < j < after.len() ==> !text_before(
                lowercase((#[trigger] after[j]).name),
                lowercase((#[trigger] after[i]).name),
            ),
        forall|i: int| 0 <= i < after.len() ==> before.contains(#[trigger] after[i]),
{
    let places = choose|places: Seq<int>| orders_stably(before, after, places);
    assert forall|i: int, j: int| 0 <= i < j < after.len() implies !text_before(
        lowercase((#[trigger] after[j]).name),
        lowercase((#[trigger] after[i]).name),
    ) by {
        assert(places[i] != places[j]);
    }
    assert forall|i: int| 0 <= i < after.len() implies before.contains(#[trigger] after[i]) by {
        assert(before[places[i]] == after[i]);
    }
}

/// A loopback reference is looked for among the devices that render, any other among those that
/// capture.
pub proof fn a_loopback_reference_renders(mode: ReferenceMode, device: AudioDeviceView)
    ensures
        reference_flow_of(mode) == Flow::Render <==> mode == ReferenceMode::Loopback,
        device.supports(reference_flow_of(mode)) == if mode == ReferenceMode::Loopback {
            device.supports_output
        } else {
            device.supports_input
        },
{
}

/// A text, or a stand-in where there is none.
pub open spec fn text_or(text: Option<Seq<char>>, fallback: Seq<char>) -> Seq<char> {
    match text {
        Some(text) => text,
        None => fallback,
    }
}

/// The heading above the list of endpoints, with the default ones.
pub open spec fn list_heading(
    default_capture: Option<Seq<char>>,
    default_render: Option<Seq<char>>,
) -> Seq<char> {
    "WASAPI audio endpoints\n\nDefault capture: "@ + text_or(default_capture, "<none>"@)
        + "\nDefault render:  "@ + text_or(default_render, "<none>"@) + "\n"@
}

/// The heading above the list of endpoints: which are the default ones.
pub fn device_list_heading(
    default_capture: &Option<String>,
    default_render: &Option<String>,
) -> (text: String)
    ensures
        text@ == list_heading(default_capture.deep_view(), default_render.deep_view()),
{
    let mut text = "WASAPI audio endpoints\n\nDefault capture: ".to_owned();
    match default_capture {
        Some(id) => text.append(id.as_str()),
        None => text.append("<none>"),
    }
    text.append("\nDefault render:  ");
    match default_render {
        Some(id) => text.append(id.as_str()),
        None => text.append("<none>"),
    }
    text.append("\n");
    text
}

/// A text, or a note of why it is unavailable.
pub open spec fn text_or_reason(text: Result<Seq<char>, Seq<char>>) -> Seq<char> {
    match text {
        Ok(text) => text,
        Err(error) => "<unavailable: "@ + error + ">"@,
    }
}

/// A format in one line, or a dash where there is none.
pub open spec fn format_or_dash(format: Result<StreamFormatView, Seq<char>>) -> Seq<char> {
    match format {
        Ok(format) => format.described(),
        Err(error) => "-"@,
    }
}

impl AudioDeviceView {
    /// A device in the list of endpoints.
    pub open spec fn list_entry(self) -> Seq<char> {
        text_or_reason(self.description) + "\n  ID:      "@ + text_or_reason(self.id)
            + "\n  Capture: "@ + format_or_dash(self.input) + "\n  Render:  "@ + format_or_dash(
            self.output,
        ) + "\n"@
    }
}

fn text_with_reason(text: &Result<String, String>) -> (shown: String)
    ensures
        shown@ == text_or_reason(text_result(*text)),
{
    match text {
        Ok(text) => text.clone(),
        Err(error) => {
            let mut shown = "<unavailable: ".to_owned();
            shown.append(error.as_str());
            shown.append(">");
            shown
        },
    }
}

fn format_with_dash(format: &Result<StreamFormat, String>) -> (shown: String)
    ensures
        shown@ == format_or_dash(format_result(*format)),
{
    match format {
        Ok(format) => format_config(format),
        Err(_) => "-".to_owned(),
    }
}

/// One device in the list of endpoints.
pub fn device_list_entry(device: &AudioDevice) -> (text: String)
    ensures
        text@ == device@.list_entry(),
{
    let mut text = text_with_reason(&device.description);
    text.append("\n  ID:      ");
    text.append(text_with_reason(&device.id).as_str());
    text.append("\n  Capture: ");
    text.append(format_with_dash(&device.input).as_str());
    text.append("\n  Render:  ");
    text.append(format_with_dash(&device.output).as_str());
    text.append("\n");
    text
}

/// The devices of a listing as they are shown, in their order.
pub open spec fn list_entries(devices: Seq<AudioDeviceView>) -> Seq<Seq<char>> {
    Seq::new(devices.len(), |i: int| devices[i].list_entry())
}

/// The list of endpoints: one entry for each device, in the order of the listing. Where the devices
/// could not be listed, there is no list.
pub fn device_list(listing: &Result<Vec<AudioDevice>, String>) -> (list: Result<
    Vec<String>,
    String,
>)
    ensures
        match listing_view(*listing) {
            Ok(devices) => list matches Ok(entries) && entries.deep_view() == list_entries(devices),
            Err(error) => list matches Err(message) && message@ == enumeration_failure(error),
        },
{
    let devices = match listing {
        Ok(devices) => devices,
        Err(error) => return Err(enumeration_message(error)),
    };
    let mut list: Vec<String> = Vec::new();
    let mut index: usize = 0;
    while index < devices.len()
        invariant
            index <= devices@.len(),
            list@.len() == index,
            forall|i: int|
                0 <= i < index ==> (#[trigger] list@[i])@ == devices@[i]@.list_entry(),
        decreases devices@.len() - index,
    {
        list.push(device_list_entry(&devices[index]));
        index = index + 1;
    }
    assert(list.deep_view() =~= list_entries(devices.deep_view()));
    Ok(list)
}

/// What the check of the endpoints shows of one device, or why it cannot. The name is asked for
/// first, then the identifier, then the format.
pub open spec fn resolved_lines(label: Seq<char>, device: AudioDeviceView, flow: Flow) -> Result<
    Seq<char>,
    Seq<char>,
> {
    match (device.name, device.id, device.format(flow)) {
        (Err(error), _, _) => Err(error),
        (Ok(_), Err(error), _) => Err(error),
        (Ok(_), Ok(_), Err(error)) => Err(error),
        (Ok(name), Ok(id), Ok(format)) => Ok(
            label + ": "@ + name + "\n  ID:     "@ + id + "\n  Format: "@ + format.described()
                + "\n"@,
        ),
    }
}

/// Describes a device that a selector was resolved to.
pub fn resolved_report(label: &str, device: &AudioDevice, flow: Flow) -> (outcome: Result<
    String,
    String,
>)
    ensures
        text_result(outcome) == resolved_lines(label@, device@, flow),
{
    let name = match &device.name {
        Ok(name) => name,
        Err(error) => return Err(error.clone()),
    };
    let id = match &device.id {
        Ok(id) => id,
        Err(error) => return Err(error.clone()),
    };
    let config = stream_config(device, flow)?;
    let mut text = label.to_owned();
    text.append(": ");
    text.append(name.as_str());
    text.append("\n  ID:     ");
    text.append(id.as_str());
    text.append("\n  Format: ");
    text.append(format_config(&config).as_str());
    text.append("\n");
    Ok(text)
}

/// What the check of the endpoints says at the beginning.
pub open spec fn check_opening() -> Seq<char> {
    "Endpoint validation succeeded. No audio streams were opened.\n"@
}

/// What the check of the endpoints says where all is well.
pub open spec fn check_closing() -> Seq<char> {
    "\nAll bridge endpoints use compatible 48 kHz f32 shared-mode audio."@
}

/// The name of the reference in the check of the endpoints.
pub open spec fn reference_check_label(mode: ReferenceMode) -> Seq<char> {
    match mode {
        ReferenceMode::Loopback => "Reference loopback"@,
        ReferenceMode::Capture => "Reference capture"@,
    }
}

/// The result of a step, or the first failure of a row of them.
pub open spec fn first_failure(failures: Seq<Option<Seq<char>>>) -> Option<Seq<char>>
    decreases failures.len(),
{
    if failures.len() == 0 {
        None
    } else if failures[0] is Some {
        failures[0]
    } else {
        first_failure(failures.drop_first())
    }
}

/// The failure of a step, if it failed.
pub open spec fn failure_of<T>(step: Result<T, Seq<char>>) -> Option<Seq<char>> {
    match step {
        Ok(_) => None,
        Err(error) => Some(error),
    }
}

/// The outcome of checking the endpoints: what is shown, and the complaint where one is in order.
#[derive(Debug)]
pub struct CheckReport {
    pub lines: Vec<String>,
    pub failure: Option<String>,
}

/// What the check of the endpoints shows: the opening, then each device as long as none fails,
/// then the closing where nothing failed at all.
pub open spec fn check_lines(
    mic: Result<Seq<char>, Seq<char>>,
    reference: Result<Seq<char>, Seq<char>>,
    output: Result<Seq<char>, Seq<char>>,
    compatible: bool,
) -> Seq<Seq<char>> {
    match mic {
        Err(error) => seq![check_opening()],
        Ok(first) => match reference {
            Err(error) => seq![check_opening(), first],
            Ok(second) => match output {
                Err(error) => seq![check_opening(), first, second],
                Ok(third) => if compatible {
                    seq![check_opening(), first, second, third, check_closing()]
                } else {
                    seq![check_opening(), first, second, third]
                },
            },
        },
    }
}

/// What fails in the check of the endpoints, if anything: the three devices are described first,
/// then their formats are checked.
pub open spec fn check_failure(
    mode: ReferenceMode,
    mic: AudioDeviceView,
    reference: AudioDeviceView,
    output: AudioDeviceView,
) -> Option<Seq<char>> {
    let flow = reference_flow_of(mode);
    first_failure(
        seq![
            failure_of(resolved_lines("Microphone"@, mic, Flow::Capture)),
            failure_of(resolved_lines(reference_check_label(mode), reference, flow)),
            failure_of(resolved_lines("Handoff render"@, output, Flow::Render)),
            failure_of(validated("microphone"@, mic, Flow::Capture)),
            failure_of(validated("reference"@, reference, flow)),
            failure_of(validated("output"@, output, Flow::Render)),
        ],
    )
}

/// The check of the endpoints passes exactly where all three devices have a name and an identifier,
/// and a format that the bridge can use, in numbers.
pub proof fn the_check_passes_exactly_where_all_suit(
    mode: ReferenceMode,
    mic: AudioDeviceView,
    reference: AudioDeviceView,
    output: AudioDeviceView,
)
    ensures
        ({
            let heard = if mode == ReferenceMode::Loopback {
                reference.output
            } else {
                reference.input
            };
            let fewest: int = if mode == ReferenceMode::Loopback {
                2
            } else {
                1
            };
            check_failure(mode, mic, reference, output) is None <==> {
                &&& mic.id is Ok && mic.name is Ok
                &&& reference.id is Ok && reference.name is Ok
                &&& output.id is Ok && output.name is Ok
                &&& mic.input matches Ok(format) && format.sample_rate == 48_000
                    && format.encoding is Float32 && 1 <= format.channels && format.channels <= 2
                &&& heard matches Ok(format) && format.sample_rate == 48_000
                    && format.encoding is Float32 && fewest <= format.channels && format.channels
                    <= 2
                &&& output.output matches Ok(format) && format.sample_rate == 48_000
                    && format.encoding is Float32 && format.channels == 2
            }
        }),
{
    reveal_with_fuel(first_failure, 7);
    validation_in_numbers("microphone"@, mic, Flow::Capture);
    validation_in_numbers("reference"@, reference, reference_flow_of(mode));
    validation_in_numbers("output"@, output, Flow::Render);
    a_found_device_shows_what_is_used("Microphone"@, mic, Flow::Capture);
    a_found_device_shows_what_is_used(
        reference_check_label(mode),
        reference,
        reference_flow_of(mode),
    );
    a_found_device_shows_what_is_used("Handoff render"@, output, Flow::Render);
}

fn list_of(first: &str) -> (list: Vec<String>)
    ensures
        list.deep_view() == seq![first@],
{
    let mut list: Vec<String> = Vec::new();
    list.push(first.to_owned());
    assert(list.deep_view() =~= seq![first@]);
    list
}

fn add_line(list: &mut Vec<String>, line: String)
    ensures
        final(list).deep_view() == old(list).deep_view().push(line@),
{
    let ghost before = list.deep_view();
    list.push(line);
    assert(list.deep_view() =~= before.push(line@));
}

/// Checks resolved endpoints without opening a stream: describes the three devices, then checks
/// their formats, each time the microphone first and the output last. The first failure ends the
/// check.
pub fn check_endpoints(mode: ReferenceMode, endpoints: &ResolvedEndpoints) -> (report: CheckReport)
    ensures
        ({
            let flow = reference_flow_of(mode);
            let mic = resolved_lines("Microphone"@, endpoints.mic@, Flow::Capture);
            let reference = resolved_lines(
                reference_check_label(mode),
                endpoints.reference@,
                flow,
            );
            let output = resolved_lines("Handoff render"@, endpoints.output@, Flow::Render);
            let mic_format = validated("microphone"@, endpoints.mic@, Flow::Capture);
            let reference_format = validated("reference"@, endpoints.reference@, flow);
            let output_format = validated("output"@, endpoints.output@, Flow::Render);
            &&& report.failure.deep_view() == check_failure(
                mode,
                endpoints.mic@,
                endpoints.reference@,
                endpoints.output@,
            )
            &&& report.lines.deep_view() == check_lines(
                mic,
                reference,
                output,
                mic_format is Ok && reference_format is Ok && output_format is Ok,
            )
        }),
        report.failure is None ==> {
            let reference = if mode == ReferenceMode::Loopback {
                endpoints.reference@.output
            } else {
                endpoints.reference@.input
            };
            &&& endpoints.mic@.input matches Ok(format) && format.sample_rate == 48_000
                && format.encoding == SampleEncodingView::Float32 && 1 <= format.channels <= 2
            &&& reference matches Ok(format) && format.sample_rate == 48_000 && format.encoding
                == SampleEncodingView::Float32 && 1 <= format.channels <= 2
            &&& endpoints.output@.output matches Ok(format) && format.sample_rate == 48_000
                && format.encoding == SampleEncodingView::Float32 && format.channels == 2
        },
        report.failure is None <==> report.lines.deep_view().len() == 5,
{
    proof {
        reveal_with_fuel(first_failure, 7);
    }
    let flow = reference_flow(mode);
    let mut lines = list_of("Endpoint validation succeeded. No audio streams were opened.\n");
    match resolved_report("Microphone", &endpoints.mic, Flow::Capture) {
        Ok(text) => add_line(&mut lines, text),
        Err(error) => return CheckReport { lines, failure: Some(error) },
    }
    let label = match mode {
        ReferenceMode::Loopback => "Reference loopback",
        ReferenceMode::Capture => "Reference capture",
    };
    match resolved_report(label, &endpoints.reference, flow) {
        Ok(text) => add_line(&mut lines, text),
        Err(error) => return CheckReport { lines, failure: Some(error) },
    }
    match resolved_report("Handoff render", &endpoints.output, Flow::Render) {
        Ok(text) => add_line(&mut lines, text),
        Err(error) => return CheckReport { lines, failure: Some(error) },
    }
    if let Err(error) = validate_format("microphone", &endpoints.mic, Flow::Capture) {
        return CheckReport { lines, failure: Some(error) };
    }
    if let Err(error) = validate_format("reference", &endpoints.reference, flow) {
        return CheckReport { lines, failure: Some(error) };
    }
    if let Err(error) = validate_format("output", &endpoints.output, Flow::Render) {
        return CheckReport { lines, failure: Some(error) };
    }
    add_line(
        &mut lines,
        "\nAll bridge endpoints use compatible 48 kHz f32 shared-mode audio.".to_owned(),
    );
    CheckReport { lines, failure: None }
}

/// A row of steps fails where one of them fails, and with the words of the first that does.
pub proof fn the_first_failure_counts(failures: Seq<Option<Seq<char>>>)
    ensures
        first_failure(failures) is None <==> forall|i: int|
            0 <= i < failures.len() ==> (#[trigger] failures[i]) is None,
        forall|at: int|
            0 <= at < failures.len() && (#[trigger] failures[at]) is Some && (forall|i: int|
                0 <= i < at ==> (#[trigger] failures[i]) is None) ==> first_failure(failures)
                == failures[at],
    decreases failures.len(),
{
    if failures.len() > 0 && failures[0] is None {
        let rest = failures.drop_first();
        the_first_failure_counts(rest);
        assert forall|i: int| 0 <= i < rest.len() implies #[trigger] rest[i] == failures[i + 1] by {}
        if first_failure(failures) is None {
            assert forall|i: int| 0 <= i < failures.len() implies (#[trigger] failures[i]) is None by {
                if i > 0 {
                    assert(rest[i - 1] is None);
                }
            }
        }
        assert forall|at: int|
            0 <= at < failures.len() && (#[trigger] failures[at]) is Some && (forall|i: int|
                0 <= i < at ==> (#[trigger] failures[i]) is None) implies first_failure(failures)
            == failures[at] by {
            assert(rest[at - 1] == failures[at]);
            assert forall|i: int| 0 <= i < at - 1 implies (#[trigger] rest[i]) is None by {
                assert(failures[i + 1] is None);
            }
        }
    }
}

/// What a format reads like: its rate, its channels, its encoding and its buffer, in this order; and
/// a floating-point encoding of 32 bits reads "f32".
pub proof fn a_format_reads_in_order(format: StreamFormatView)
    ensures
        format.described() == digits(format.sample_rate as nat) + " Hz, "@ + digits(
            format.channels as nat,
        ) + " channel(s), "@ + (match format.encoding {
            SampleEncodingView::Float32 => "f32"@,
            SampleEncodingView::Other(name) => name,
        }) + ", buffer "@ + format.buffer,
{
}

/// A device in the list shows its own parts, each behind its own name: what it captures in behind
/// "Capture", what it renders in behind "Render", and a dash where there is none.
pub proof fn a_listed_device_shows_its_own_parts(device: AudioDeviceView)
    ensures
        ({
            let shown = |text: Result<Seq<char>, Seq<char>>|
                match text {
                    Ok(text) => text,
                    Err(error) => "<unavailable: "@ + error + ">"@,
                };
            let format = |format: Result<StreamFormatView, Seq<char>>|
                match format {
                    Ok(format) => format.described(),
                    Err(_) => "-"@,
                };
            device.list_entry() == shown(device.description) + "\n  ID:      "@ + shown(device.id)
                + "\n  Capture: "@ + format(device.input) + "\n  Render:  "@ + format(device.output)
                + "\n"@
        }),
{
}

/// What is shown of a device that was found: its name, its identifier, and its format in the
/// direction that it is used in. It can be shown exactly where it has all three.
pub proof fn a_found_device_shows_what_is_used(label: Seq<char>, device: AudioDeviceView, flow: Flow)
    ensures
        ({
            let own = if flow == Flow::Capture {
                device.input
            } else {
                device.output
            };
            let shown = resolved_lines(label, device, flow);
            &&& shown is Ok <==> device.name is Ok && device.id is Ok && own is Ok
            &&& shown matches Ok(text) ==> text == label + ": "@ + device.name->Ok_0
                + "\n  ID:     "@ + device.id->Ok_0 + "\n  Format: "@ + own->Ok_0.described() + "\n"@
        }),
{
}

/// The list has one entry for each device, in the order of the devices.
pub proof fn the_list_has_an_entry_for_each_device(devices: Seq<AudioDeviceView>)
    ensures
        list_entries(devices).len() == devices.len(),
        forall|i: int|
            0 <= i < devices.len() ==> #[trigger] list_entries(devices)[i]
                == devices[i].list_entry(),
{
}

/// The check shows the devices up to the first that cannot be shown, in the order microphone,
/// reference, output, and says that all is well exactly where it is.
pub proof fn the_check_shows_each_device_in_turn(
    mic: Result<Seq<char>, Seq<char>>,
    reference: Result<Seq<char>, Seq<char>>,
    output: Result<Seq<char>, Seq<char>>,
    compatible: bool,
)
    ensures
        ({
            let lines = check_lines(mic, reference, output, compatible);
            &&& lines.len() >= 2 <==> mic is Ok
            &&& lines.len() >= 3 <==> mic is Ok && reference is Ok
            &&& lines.len() >= 4 <==> mic is Ok && reference is Ok && output is Ok
            &&& lines.len() == 5 <==> mic is Ok && reference is Ok && output is Ok && compatible
            &&& 1 <= lines.len() <= 5
            &&& lines.len() >= 2 ==> mic == Ok::<Seq<char>, Seq<char>>(lines[1])
            &&& lines.len() >= 3 ==> reference == Ok::<Seq<char>, Seq<char>>(lines[2])
            &&& lines.len() >= 4 ==> output == Ok::<Seq<char>, Seq<char>>(lines[3])
        }),
{
}

/// The heading names the default endpoint of each direction behind the name of that direction.
pub proof fn the_heading_names_both_defaults(
    default_capture: Option<Seq<char>>,
    default_render: Option<Seq<char>>,
)
    ensures
        ({
            let named = |endpoint: Option<Seq<char>>|
                if endpoint is Some {
                    endpoint->0
                } else {
                    "<none>"@
                };
            list_heading(default_capture, default_render)
                == "WASAPI audio endpoints\n\nDefault capture: "@ + named(default_capture)
                + "\nDefault render:  "@ + named(default_render) + "\n"@
        }),
{
}

/// A selector that names no device, or several, is refused in words: with the direction where there
/// is none, and with the names of all that it could mean, in the order of the listing, where there
/// are several.
pub proof fn a_selector_is_refused_with_what_it_could_mean(
    devices: Seq<AudioDeviceView>,
    selector: Seq<char>,
    flow: Flow,
)
    ensures
        ({
            let matches = selector_matches(devices, selector, flow);
            let outcome = resolved(IdLookupView::NotAnId, Ok(devices), selector, flow);
            let names = Seq::new(matches.len(), |i: int| matches[i].name->Ok_0);
            &&& matches.len() == 0 ==> outcome == Err::<AudioDeviceView, Seq<char>>(
                "no active "@ + (if flow == Flow::Capture {
                    "Capture"@
                } else {
                    "Render"@
                }) + " endpoint matches '"@ + selector + "'"@,
            )
            &&& matches.len() >= 2 ==> outcome == Err::<AudioDeviceView, Seq<char>>(
                "selector '"@ + selector + "' is ambiguous; it matches: "@ + joined(names, ", "@),
            )
        }),
        resolved(IdLookupView::Missing, Ok(devices), selector, flow) == Err::<
            AudioDeviceView,
            Seq<char>,
        >("no active endpoint has ID '"@ + selector + "'"@),
{
    let matches = selector_matches(devices, selector, flow);
    assert(device_names(matches) =~= Seq::new(matches.len(), |i: int| matches[i].name->Ok_0));
}

} // verus!
