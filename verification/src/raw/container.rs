//! Containers that are opened with options.

use vstd::prelude::*;
use crate::config::dict::Dictionary;
use crate::config::stream::StreamFields;
use crate::error::{Error, ErrorView};
use crate::raw::format::{
    spec_configured, spec_open_input, spec_read_packet, Format, OpenOutcome, ReadOutcome,
};
use crate::raw::packet::{Packet, PacketView};
use crate::tags::Input;

verus! {

/// A container that has one or more streams of media and their metadata.
#[derive(Debug)]
pub struct Container<IO> {
    fmt: Format<IO>,
}

impl<IO> View for Container<IO> {
    type V = Seq<StreamFields>;

    /// The stream table.
    closed spec fn view(&self) -> Seq<StreamFields> {
        self.fmt@
    }
}

impl<IO> Container<IO> {
    /// The open container.
    pub closed spec fn spec_format(self) -> Format<IO> {
        self.fmt
    }
}

impl Container<Input> {
    /// Opens a media file as input, without options, given what the native
    /// layer answered.
    pub fn open_input(file_path: &[u8], opened: OpenOutcome) -> (result: Result<
        Container<Input>,
        Error,
    >)
        ensures
            result is Ok <==> spec_open_input(file_path@, opened) is Ok,
            result matches Ok(container) ==> Ok::<Seq<StreamFields>, ErrorView>(container@)
                == spec_open_input(file_path@, opened) && spec_configured(
                container.spec_format().spec_configuration(),
                opened,
            ),
            result matches Err(e) ==> Err::<Seq<StreamFields>, ErrorView>(e@) == spec_open_input(
                file_path@,
                opened,
            ),
    {
        let mut empty_params = Dictionary::new();
        let unused = Dictionary::new();
        Container::open_input_with_options(file_path, &mut empty_params, opened, unused)
    }

    /// Opens a media file as input with options, given what the native layer
    /// answered.
    ///
    /// The native layer takes out of the options those that it used; `unused`
    /// holds what it left. After a successful opening `options` holds those;
    /// after a failure it is as it was.
    pub fn open_input_with_options(
        file_path: &[u8],
        options: &mut Dictionary,
        opened: OpenOutcome,
        unused: Dictionary,
    ) -> (result: Result<Container<Input>, Error>)
        ensures
            result is Ok <==> spec_open_input(file_path@, opened) is Ok,
            result matches Ok(container) ==> Ok::<Seq<StreamFields>, ErrorView>(container@)
                == spec_open_input(file_path@, opened) && spec_configured(
                container.spec_format().spec_configuration(),
                opened,
            ) && final(options)@ == unused@,
            result matches Err(e) ==> Err::<Seq<StreamFields>, ErrorView>(e@) == spec_open_input(
                file_path@,
                opened,
            ) && final(options)@ == old(options)@,
    {
        Self::inner_open(file_path, options, opened, unused)
    }

    /// The work of opening, apart from how the path and the options are
    /// handed in.
    fn inner_open(
        file_path: &[u8],
        options: &mut Dictionary,
        opened: OpenOutcome,
        unused: Dictionary,
    ) -> (result: Result<Container<Input>, Error>)
        ensures
            result is Ok <==> spec_open_input(file_path@, opened) is Ok,
            result matches Ok(container) ==> Ok::<Seq<StreamFields>, ErrorView>(container@)
                == spec_open_input(file_path@, opened) && spec_configured(
                container.spec_format().spec_configuration(),
                opened,
            ) && final(options)@ == unused@,
            result matches Err(e) ==> Err::<Seq<StreamFields>, ErrorView>(e@) == spec_open_input(
                file_path@,
                opened,
            ) && final(options)@ == old(options)@,
    {
        match Format::open_input(file_path, opened) {
            Ok(fmt) => {
                *options = unused;
                Ok(Container { fmt })
            },
            Err(e) => Err(e),
        }
    }

    /// Takes in the next packet, given what the native read answered.
    /// Whatever the packet held is dropped first.
    pub fn get_next_packet_into(&mut self, packet: &mut Packet, read: ReadOutcome) -> (result:
        Result<(), Error>)
        ensures
            *final(self) == *old(self),
            result is Ok <==> spec_read_packet(read) is Ok,
            result is Ok ==> Ok::<PacketView, ErrorView>(final(packet)@) == spec_read_packet(read),
            result matches Err(e) ==> Err::<PacketView, ErrorView>(e@) == spec_read_packet(read)
                && final(packet)@ == PacketView::empty(),
    {
        self.fmt.get_next_packet_into(packet, read)
    }

    /// Takes in the next packet as a new packet.
    pub fn get_next_packet(&mut self, read: ReadOutcome) -> (result: Result<Packet, Error>)
        ensures
            *final(self) == *old(self),
            result is Ok <==> spec_read_packet(read) is Ok,
            result matches Ok(packet) ==> Ok::<PacketView, ErrorView>(packet@) == spec_read_packet(
                read,
            ),
            result matches Err(e) ==> Err::<PacketView, ErrorView>(e@) == spec_read_packet(read),
    {
        self.fmt.get_next_packet(read)
    }

    /// The container under its other name.
    pub fn into_format(self) -> (fmt: Format<Input>)
        ensures
            fmt == self.spec_format(),
            fmt@ == self@,
    {
        self.fmt
    }
}

} // verus!
