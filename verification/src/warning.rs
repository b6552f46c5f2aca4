//! The texts shown to the user: the warning about a device, the question
//! that follows it, and the note on a refusal.

use vstd::prelude::*;
use vstd::string::*;
use crate::device::{DeviceInfo, DeviceView, PartitionInfo, PartitionView};
use crate::style::{
    bold, bold_code, cyan, cyan_code, green, green_code, italic, italic_code, red, red_code, reset,
    reset_code, white, white_code, yellow, yellow_code,
};

verus! {

/// One line of a listing: a label in italic cyan, bold where it is
/// `strong`, then the value. The line is set in by four spaces where it is
/// `indented`.
pub open spec fn entry(label: Seq<char>, value: Seq<char>, strong: bool, indented: bool) -> Seq<
    char,
> {
    (if indented {
        "    "@
    } else {
        Seq::empty()
    }) + italic() + cyan() + (if strong {
        bold()
    } else {
        Seq::empty()
    }) + label + reset() + " "@ + value + "\n"@
}

/// What is said about the partitions as a whole.
pub open spec fn partitions_notice(count: nat) -> Seq<char> {
    if count == 0 {
        "There are no present partitions"@
    } else {
        "The following partitions are present:"@
    }
}

/// The head of the warning: the device that is about to be written to,
/// its name, model and size, and the notice on its partitions.
pub open spec fn heading(device: DeviceView) -> Seq<char> {
    red() + bold() + "WARNING: "@ + yellow() + "You are about to write data to "@ + device.name
        + ", this device has the following information."@ + white() + reset() + "\n\n"@ + entry(
        "* Name:"@,
        device.name,
        true,
        true,
    ) + entry("* Model:"@, device.model, true, true) + entry("* Size:"@, device.size, true, true)
        + "\n"@ + yellow() + bold() + partitions_notice(device.partitions.len()) + "\n\n"@
}

/// The block that lists one partition: name, file system, mount point,
/// label and size, closed by an empty line.
pub open spec fn partition_block(partition: PartitionView) -> Seq<char> {
    entry("* Name:"@, partition.name, true, false) + entry(
        "* File System:"@,
        partition.fs,
        false,
        true,
    ) + entry("* Mount Point:"@, partition.mount, false, true) + entry(
        "* Label:"@,
        partition.label,
        false,
        true,
    ) + entry("* Size:"@, partition.size, false, true) + "\n"@
}

/// The blocks of the partitions, one for each, in their order.
pub open spec fn partition_blocks(partitions: Seq<PartitionView>) -> Seq<Seq<char>> {
    Seq::new(partitions.len(), |i: int| partition_block(partitions[i]))
}

/// The parts one after the other.
pub open spec fn concat(parts: Seq<Seq<char>>) -> Seq<char>
    decreases parts.len(),
{
    if parts.len() == 0 {
        Seq::empty()
    } else {
        concat(parts.drop_last()) + parts.last()
    }
}

/// The whole warning about a device: the heading, then the block of each
/// partition.
pub open spec fn warning_text(device: DeviceView) -> Seq<char> {
    heading(device) + concat(partition_blocks(device.partitions))
}

/// Appends one line of a listing.
fn push_entry(out: &mut String, label: &str, value: &str, strong: bool, indented: bool)
    ensures
        final(out)@ == old(out)@ + entry(label@, value@, strong, indented),
{
    if indented {
        out.append("    ");
    }
    out.append(italic_code());
    out.append(cyan_code());
    if strong {
        out.append(bold_code());
    }
    out.append(label);
    out.append(reset_code());
    out.append(" ");
    out.append(value);
    out.append("\n");
    assert(out@ =~= old(out)@ + entry(label@, value@, strong, indented));
}

/// Appends the head of the warning.
fn push_heading(out: &mut String, device: &DeviceInfo)
    ensures
        final(out)@ == old(out)@ + heading(device@),
{
    out.append(red_code());
    out.append(bold_code());
    out.append("WARNING: ");
    out.append(yellow_code());
    out.append("You are about to write data to ");
    out.append(device.name.as_str());
    out.append(", this device has the following information.");
    out.append(white_code());
    out.append(reset_code());
    out.append("\n\n");
    push_entry(out, "* Name:", device.name.as_str(), true, true);
    push_entry(out, "* Model:", device.model.as_str(), true, true);
    push_entry(out, "* Size:", device.size.as_str(), true, true);
    out.append("\n");
    out.append(yellow_code());
    out.append(bold_code());
    if device.partitions.len() == 0 {
        out.append("There are no present partitions");
    } else {
        out.append("The following partitions are present:");
    }
    out.append("\n\n");
    assert(out@ =~= old(out)@ + heading(device@));
}

/// Appends the block of one partition.
fn push_partition(out: &mut String, partition: &PartitionInfo)
    ensures
        final(out)@ == old(out)@ + partition_block(partition@),
{
    push_entry(out, "* Name:", partition.name.as_str(), true, false);
    push_entry(out, "* File System:", partition.fs.as_str(), false, true);
    push_entry(out, "* Mount Point:", partition.mount.as_str(), false, true);
    push_entry(out, "* Label:", partition.label.as_str(), false, true);
    push_entry(out, "* Size:", partition.size.as_str(), false, true);
    out.append("\n");
    assert(out@ =~= old(out)@ + partition_block(partition@));
}

/// Renders the warning about a device: the same text for the same
/// snapshot, with every field of the device and of each partition, the
/// partitions in the snapshot's order.
pub fn generate_warning_text(device_info: DeviceInfo) -> (text: String)
    ensures
        text@ == warning_text(device_info@),
{
    let ghost blocks = partition_blocks(device_info@.partitions);
    let mut text = String::new();
    push_heading(&mut text, &device_info);
    assert(text@ =~= heading(device_info@) + concat(blocks.take(0)));
    let mut i: usize = 0;
    while i < device_info.partitions.len()
        invariant
            i <= device_info.partitions@.len(),
            blocks == partition_blocks(device_info@.partitions),
            text@ == heading(device_info@) + concat(blocks.take(i as int)),
        decreases device_info.partitions@.len() - i,
    {
        push_partition(&mut text, &device_info.partitions[i]);
        proof {
            assert(blocks.take(i + 1).drop_last() =~= blocks.take(i as int));
            assert(blocks.take(i + 1).last() == partition_block(device_info.partitions@[i as int]@));
            assert(text@ =~= heading(device_info@) + concat(blocks.take(i + 1)));
        }
        i += 1;
    }
    assert(blocks.take(i as int) =~= blocks);
    text
}

/// A device without partitions gets the notice that there are none and
/// nothing behind the heading. Otherwise the heading announces the
/// partitions, and behind it stands exactly one block for each of them, in
/// their order.
pub proof fn law_one_block_for_each_partition(device: DeviceView)
    ensures
        device.partitions.len() == 0 ==> warning_text(device) == heading(device)
            && partitions_notice(device.partitions.len()) == "There are no present partitions"@,
        device.partitions.len() > 0 ==> partitions_notice(device.partitions.len())
            == "The following partitions are present:"@,
        partition_blocks(device.partitions).len() == device.partitions.len(),
        forall|i: int|
            0 <= i < device.partitions.len() ==> #[trigger] partition_blocks(device.partitions)[i]
                == partition_block(device.partitions[i]),
        warning_text(device) == heading(device) + concat(partition_blocks(device.partitions)),
{
    if device.partitions.len() == 0 {
        assert(heading(device) + Seq::<char>::empty() =~= heading(device));
    }
}

/// The question that closes the prompt: what is at stake, and the two
/// answers.
pub open spec fn question() -> Seq<char> {
    red() + bold() + "THIS WILL DESTROY ALL DATA ON THE DEVICE\nTHIS ACTION CANNOT BE UNDONE\n"@
        + yellow() + "Are you absolutely sure you want to proceed? "@ + reset() + white() + "["@
        + red() + "y"@ + white() + "/"@ + green() + "N"@ + white() + "]"@ + reset() + ": "@
}

/// The whole prompt: the warning about the device, an empty line's end,
/// and the question.
pub open spec fn prompt_text(device: DeviceView) -> Seq<char> {
    warning_text(device) + "\n"@ + question()
}

/// What is said when the user refuses.
pub open spec fn refusal_text() -> Seq<char> {
    green() + bold() + "Execution aborted"@ + reset()
}

/// Builds the prompt that is shown before the one line of input is read.
pub fn confirmation_prompt(device_info: DeviceInfo) -> (text: String)
    ensures
        text@ == prompt_text(device_info@),
{
    let ghost device = device_info@;
    let mut text = generate_warning_text(device_info);
    text.append("\n");
    text.append(red_code());
    text.append(bold_code());
    text.append("THIS WILL DESTROY ALL DATA ON THE DEVICE\nTHIS ACTION CANNOT BE UNDONE\n");
    text.append(yellow_code());
    text.append("Are you absolutely sure you want to proceed? ");
    text.append(reset_code());
    text.append(white_code());
    text.append("[");
    text.append(red_code());
    text.append("y");
    text.append(white_code());
    text.append("/");
    text.append(green_code());
    text.append("N");
    text.append(white_code());
    text.append("]");
    text.append(reset_code());
    text.append(": ");
    assert(text@ =~= prompt_text(device));
    text
}

/// Builds the note that is shown when the user refuses.
pub fn refusal_note() -> (text: String)
    ensures
        text@ == refusal_text(),
{
    let mut text = String::new();
    text.append(green_code());
    text.append(bold_code());
    text.append("Execution aborted");
    text.append(reset_code());
    assert(text@ =~= refusal_text());
    text
}

} // verus!
