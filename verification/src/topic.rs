use crate::text::{begins_with, chars_of, same_text};
use vstd::prelude::*;
use vstd::string::StrSliceExecFns;

verus! {

/// Where the topic segment that starts at `from` ends: the index of the
/// first `/` at or after `from`, or the length of the topic if there is none.
pub open spec fn segment_end(topic: Seq<char>, from: int) -> int
    decreases topic.len() - from,
{
    if from < 0 || from >= topic.len() {
        topic.len() as int
    } else if topic[from] == '/' {
        from
    } else {
        segment_end(topic, from + 1)
    }
}

/// The device that a topic names: its second segment, where segments are
/// parted by `/`. A topic of one segment names the device `unknown`.
pub open spec fn device_of(topic: Seq<char>) -> Seq<char> {
    let first = segment_end(topic, 0);
    if first >= topic.len() {
        "unknown"@
    } else {
        topic.subrange(first + 1, segment_end(topic, first + 1))
    }
}

/// Whether a topic belongs to the bridge itself and not to a device.
pub open spec fn is_administrative(topic: Seq<char>) -> bool {
    "zigbee2mqtt/bridge"@.is_prefix_of(topic)
}

/// The place that a device stands at, for the devices that have one; the
/// device's own name for the others.
pub open spec fn place_of(device: Seq<char>) -> Seq<char> {
    if device == "Device 1"@ || device == "leak_kitchen"@ {
        "Кухня, под мойкой"@
    } else if device == "leak_bathroom"@ {
        "Ванная, возле стиралки"@
    } else {
        device
    }
}

/// `segment_end` lies between `from` and the end, no `/` stands before it,
/// and it is the end of the topic or the place of a `/`.
pub proof fn lemma_segment_end(topic: Seq<char>, from: int)
    requires
        0 <= from <= topic.len(),
    ensures
        from <= segment_end(topic, from) <= topic.len(),
        forall|k: int| from <= k < segment_end(topic, from) ==> topic[k] != '/',
        segment_end(topic, from) < topic.len() ==> topic[segment_end(topic, from)] == '/',
    decreases topic.len() - from,
{
    if from < topic.len() && topic[from] != '/' {
        lemma_segment_end(topic, from + 1);
    }
}

/// A device name is a single segment: no `/` stands in it.
pub proof fn lemma_device_is_one_segment(topic: Seq<char>)
    ensures
        forall|i: int| 0 <= i < device_of(topic).len() ==> device_of(topic)[i] != '/',
{
    reveal_strlit("unknown");
    lemma_segment_end(topic, 0);
    let first = segment_end(topic, 0);
    if first < topic.len() {
        lemma_segment_end(topic, first + 1);
    }
}

fn find_segment_end(topic: &Vec<char>, from: usize) -> (end: usize)
    requires
        from <= topic.len(),
    ensures
        end == segment_end(topic@, from as int),
        from <= end <= topic.len(),
{
    let mut end: usize = from;
    while end < topic.len() && topic[end] != '/'
        invariant
            from <= end <= topic.len(),
            segment_end(topic@, from as int) == segment_end(topic@, end as int),
        decreases topic.len() - end,
    {
        end += 1;
    }
    end
}

/// The device that `topic` names.
pub fn extract_device_name(topic: &str) -> (device: String)
    ensures
        device@ == device_of(topic@),
{
    let chars = chars_of(topic);
    let first = find_segment_end(&chars, 0);
    if first >= chars.len() {
        "unknown".to_owned()
    } else {
        let end = find_segment_end(&chars, first + 1);
        topic.substring_char(first + 1, end).to_owned()
    }
}

/// Whether `topic` belongs to the bridge itself.
pub fn is_bridge_topic(topic: &str) -> (yes: bool)
    ensures
        yes == is_administrative(topic@),
{
    begins_with(topic, "zigbee2mqtt/bridge")
}

/// The place that `device` stands at, or its own name.
pub fn pretty_place<'a>(device: &'a str) -> (place: &'a str)
    ensures
        place@ == place_of(device@),
{
    if same_text(device, "Device 1") || same_text(device, "leak_kitchen") {
        "Кухня, под мойкой"
    } else if same_text(device, "leak_bathroom") {
        "Ванная, возле стиралки"
    } else {
        device
    }
}

} // verus!
