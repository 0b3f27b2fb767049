//! Create-request message types: version-gated composites and the tagged
//! union that dispatches one of several payload shapes over a single wire
//! type.

use vstd::prelude::*;

use crate::Version;
use crate::cursor::Cursor;
use crate::decoder::{Decoded, Decoder};
use crate::encoder::Encoder;
use crate::error::DecodeError;

verus! {

/// Payload for creating a topic.
#[derive(Debug, Clone, Copy, PartialEq, Eq, Structural)]
pub struct TopicSpec {
    pub partitions: i32,
    pub replication_factor: i16,
    pub ignore_rack_assignment: bool,
}

impl TopicSpec {
    /// The discriminant tag of this payload in [`ObjectCreateRequest`].
    pub const CREATE_TYPE: u8 = 0;
}

impl Default for TopicSpec {
    fn default() -> (r: Self)
        ensures
            r == (TopicSpec { partitions: 0, replication_factor: 0, ignore_rack_assignment: false }),
    {
        TopicSpec { partitions: 0, replication_factor: 0, ignore_rack_assignment: false }
    }
}

impl DeepView for TopicSpec {
    type V = TopicSpec;

    open spec fn deep_view(&self) -> TopicSpec {
        *self
    }
}

impl Decoder for TopicSpec {
    /// Three fields in order: partition count, replication factor, rack flag.
    open spec fn spec_decode(b: Seq<u8>, version: Version) -> Decoded<TopicSpec> {
        match i32::spec_decode(b, version) {
            Decoded::Value { value: partitions, rest } => {
                match i16::spec_decode(rest, version) {
                    Decoded::Value { value: replication_factor, rest } => {
                        match bool::spec_decode(rest, version) {
                            Decoded::Value { value: ignore_rack_assignment, rest } => {
                                Decoded::Value {
                                    value: TopicSpec {
                                        partitions,
                                        replication_factor,
                                        ignore_rack_assignment,
                                    },
                                    rest,
                                }
                            },
                            Decoded::TooShort => Decoded::TooShort,
                            Decoded::Invalid => Decoded::Invalid,
                        }
                    },
                    Decoded::TooShort => Decoded::TooShort,
                    Decoded::Invalid => Decoded::Invalid,
                }
            },
            Decoded::TooShort => Decoded::TooShort,
            Decoded::Invalid => Decoded::Invalid,
        }
    }

    fn decode_from(src: &mut Cursor, version: Version) -> (r: Result<Self, DecodeError>) {
        let partitions = i32::decode_from(src, version)?;
        let replication_factor = i16::decode_from(src, version)?;
        let ignore_rack_assignment = bool::decode_from(src, version)?;
        Ok(TopicSpec { partitions, replication_factor, ignore_rack_assignment })
    }
}

impl Encoder for TopicSpec {
    open spec fn spec_encodable(v: TopicSpec, version: Version) -> bool {
        true
    }

    open spec fn spec_encode(v: TopicSpec, version: Version) -> Seq<u8> {
        i32::spec_encode(v.partitions, version) + i16::spec_encode(v.replication_factor, version)
            + bool::spec_encode(v.ignore_rack_assignment, version)
    }

    fn write_size(&self, version: Version) -> (n: usize) {
        7
    }

    fn encode(&self, dest: &mut Vec<u8>, version: Version) -> (r: Result<(), DecodeError>) {
        let _ = self.partitions.encode(dest, version);
        let _ = self.replication_factor.encode(dest, version);
        let _ = self.ignore_rack_assignment.encode(dest, version);
        proof {
            assert(final(dest)@ =~= old(dest)@ + Self::spec_encode(self.deep_view(), version));
        }
        Ok(())
    }

    proof fn round_trip(v: TopicSpec, rest: Seq<u8>, version: Version) {
        let b2 = i16::spec_encode(v.replication_factor, version);
        let b3 = bool::spec_encode(v.ignore_rack_assignment, version);
        assert(Self::spec_encode(v, version) + rest =~= i32::spec_encode(v.partitions, version) + (
        b2 + (b3 + rest)));
        i32::round_trip(v.partitions, b2 + (b3 + rest), version);
        i16::round_trip(v.replication_factor, b3 + rest, version);
        bool::round_trip(v.ignore_rack_assignment, rest, version);
    }
}

/// Payload for registering a custom streaming-processing unit.
#[derive(Debug, Clone, Copy, PartialEq, Eq, Structural)]
pub struct CustomSpuSpec {
    pub id: i32,
    pub public_port: u16,
    pub private_port: u16,
}

impl CustomSpuSpec {
    /// The discriminant tag of this payload in [`ObjectCreateRequest`].
    pub const CREATE_TYPE: u8 = 1;
}

impl DeepView for CustomSpuSpec {
    type V = CustomSpuSpec;

    open spec fn deep_view(&self) -> CustomSpuSpec {
        *self
    }
}

impl Decoder for CustomSpuSpec {
    /// Three fields in order: unit id, public port, private port.
    open spec fn spec_decode(b: Seq<u8>, version: Version) -> Decoded<CustomSpuSpec> {
        match i32::spec_decode(b, version) {
            Decoded::Value { value: id, rest } => {
                match u16::spec_decode(rest, version) {
                    Decoded::Value { value: public_port, rest } => {
                        match u16::spec_decode(rest, version) {
                            Decoded::Value { value: private_port, rest } => Decoded::Value {
                                value: CustomSpuSpec { id, public_port, private_port },
                                rest,
                            },
                            Decoded::TooShort => Decoded::TooShort,
                            Decoded::Invalid => Decoded::Invalid,
                        }
                    },
                    Decoded::TooShort => Decoded::TooShort,
                    Decoded::Invalid => Decoded::Invalid,
                }
            },
            Decoded::TooShort => Decoded::TooShort,
            Decoded::Invalid => Decoded::Invalid,
        }
    }

    fn decode_from(src: &mut Cursor, version: Version) -> (r: Result<Self, DecodeError>) {
        let id = i32::decode_from(src, version)?;
        let public_port = u16::decode_from(src, version)?;
        let private_port = u16::decode_from(src, version)?;
        Ok(CustomSpuSpec { id, public_port, private_port })
    }
}

impl Encoder for CustomSpuSpec {
    open spec fn spec_encodable(v: CustomSpuSpec, version: Version) -> bool {
        true
    }

    open spec fn spec_encode(v: CustomSpuSpec, version: Version) -> Seq<u8> {
        i32::spec_encode(v.id, version) + u16::spec_encode(v.public_port, version)
            + u16::spec_encode(v.private_port, version)
    }

    fn write_size(&self, version: Version) -> (n: usize) {
        8
    }

    fn encode(&self, dest: &mut Vec<u8>, version: Version) -> (r: Result<(), DecodeError>) {
        let _ = self.id.encode(dest, version);
        let _ = self.public_port.encode(dest, version);
        let _ = self.private_port.encode(dest, version);
        proof {
            assert(final(dest)@ =~= old(dest)@ + Self::spec_encode(self.deep_view(), version));
        }
        Ok(())
    }

    proof fn round_trip(v: CustomSpuSpec, rest: Seq<u8>, version: Version) {
        let b2 = u16::spec_encode(v.public_port, version);
        let b3 = u16::spec_encode(v.private_port, version);
        assert(Self::spec_encode(v, version) + rest =~= i32::spec_encode(v.id, version) + (b2 + (b3
            + rest)));
        i32::round_trip(v.id, b2 + (b3 + rest), version);
        u16::round_trip(v.public_port, b3 + rest, version);
        u16::round_trip(v.private_port, rest, version);
    }
}

/// Payload for creating a group of streaming-processing units.
#[derive(Debug, Clone, Copy, PartialEq, Eq, Structural)]
pub struct SpuGroupSpec {
    pub replicas: u16,
    pub min_id: i32,
}

impl SpuGroupSpec {
    /// The discriminant tag of this payload in [`ObjectCreateRequest`].
    pub const CREATE_TYPE: u8 = 2;
}

impl DeepView for SpuGroupSpec {
    type V = SpuGroupSpec;

    open spec fn deep_view(&self) -> SpuGroupSpec {
        *self
    }
}

impl Decoder for SpuGroupSpec {
    /// Two fields in order: replica count, minimum unit id.
    open spec fn spec_decode(b: Seq<u8>, version: Version) -> Decoded<SpuGroupSpec> {
        match u16::spec_decode(b, version) {
            Decoded::Value { value: replicas, rest } => {
                match i32::spec_decode(rest, version) {
                    Decoded::Value { value: min_id, rest } => Decoded::Value {
                        value: SpuGroupSpec { replicas, min_id },
                        rest,
                    },
                    Decoded::TooShort => Decoded::TooShort,
                    Decoded::Invalid => Decoded::Invalid,
                }
            },
            Decoded::TooShort => Decoded::TooShort,
            Decoded::Invalid => Decoded::Invalid,
        }
    }

    fn decode_from(src: &mut Cursor, version: Version) -> (r: Result<Self, DecodeError>) {
        let replicas = u16::decode_from(src, version)?;
        let min_id = i32::decode_from(src, version)?;
        Ok(SpuGroupSpec { replicas, min_id })
    }
}

impl Encoder for SpuGroupSpec {
    open spec fn spec_encodable(v: SpuGroupSpec, version: Version) -> bool {
        true
    }

    open spec fn spec_encode(v: SpuGroupSpec, version: Version) -> Seq<u8> {
        u16::spec_encode(v.replicas, version) + i32::spec_encode(v.min_id, version)
    }

    fn write_size(&self, version: Version) -> (n: usize) {
        6
    }

    fn encode(&self, dest: &mut Vec<u8>, version: Version) -> (r: Result<(), DecodeError>) {
        let _ = self.replicas.encode(dest, version);
        let _ = self.min_id.encode(dest, version);
        proof {
            assert(final(dest)@ =~= old(dest)@ + Self::spec_encode(self.deep_view(), version));
        }
        Ok(())
    }

    proof fn round_trip(v: SpuGroupSpec, rest: Seq<u8>, version: Version) {
        let b2 = i32::spec_encode(v.min_id, version);
        assert(Self::spec_encode(v, version) + rest =~= u16::spec_encode(v.replicas, version) + (b2
            + rest));
        u16::round_trip(v.replicas, b2 + rest, version);
        i32::round_trip(v.min_id, rest, version);
    }
}

/// Payload for installing a compiled streaming module.
#[derive(Debug, Clone)]
pub struct SmartModuleSpec {
    pub body: Vec<u8>,
}

impl SmartModuleSpec {
    /// The discriminant tag of this payload in [`ObjectCreateRequest`].
    pub const CREATE_TYPE: u8 = 3;
}

/// Abstract value of a [`SmartModuleSpec`].
pub struct SmartModuleSpecView {
    pub body: Seq<u8>,
}

impl DeepView for SmartModuleSpec {
    type V = SmartModuleSpecView;

    open spec fn deep_view(&self) -> SmartModuleSpecView {
        SmartModuleSpecView { body: self.body@ }
    }
}

impl Decoder for SmartModuleSpec {
    /// One field: the module body as a count-prefixed byte sequence.
    open spec fn spec_decode(b: Seq<u8>, version: Version) -> Decoded<SmartModuleSpecView> {
        match Vec::<u8>::spec_decode(b, version) {
            Decoded::Value { value: body, rest } => Decoded::Value {
                value: SmartModuleSpecView { body },
                rest,
            },
            Decoded::TooShort => Decoded::TooShort,
            Decoded::Invalid => Decoded::Invalid,
        }
    }

    fn decode_from(src: &mut Cursor, version: Version) -> (r: Result<Self, DecodeError>) {
        let body = Vec::<u8>::decode_from(src, version)?;
        proof {
            assert(body.deep_view() =~= body@);
        }
        Ok(SmartModuleSpec { body })
    }
}

impl Encoder for SmartModuleSpec {
    open spec fn spec_encodable(v: SmartModuleSpecView, version: Version) -> bool {
        Vec::<u8>::spec_encodable(v.body, version)
    }

    open spec fn spec_encode(v: SmartModuleSpecView, version: Version) -> Seq<u8> {
        Vec::<u8>::spec_encode(v.body, version)
    }

    fn write_size(&self, version: Version) -> (n: usize) {
        proof {
            assert(self.body.deep_view() =~= self.body@);
        }
        self.body.write_size(version)
    }

    fn encode(&self, dest: &mut Vec<u8>, version: Version) -> (r: Result<(), DecodeError>) {
        proof {
            assert(self.body.deep_view() =~= self.body@);
        }
        self.body.encode(dest, version)
    }

    proof fn round_trip(v: SmartModuleSpecView, rest: Seq<u8>, version: Version) {
        Vec::<u8>::round_trip(v.body, rest, version);
    }
}

/// Payload for creating a managed connector.
#[derive(Debug, Clone)]
pub struct ManagedConnectorSpec {
    pub name: String,
}

impl ManagedConnectorSpec {
    /// The discriminant tag of this payload in [`ObjectCreateRequest`].
    pub const CREATE_TYPE: u8 = 4;
}

/// Abstract value of a [`ManagedConnectorSpec`].
pub struct ManagedConnectorSpecView {
    pub name: Seq<char>,
}

impl DeepView for ManagedConnectorSpec {
    type V = ManagedConnectorSpecView;

    open spec fn deep_view(&self) -> ManagedConnectorSpecView {
        ManagedConnectorSpecView { name: self.name@ }
    }
}

impl Decoder for ManagedConnectorSpec {
    /// One field: the connector name as length-prefixed text.
    open spec fn spec_decode(b: Seq<u8>, version: Version) -> Decoded<ManagedConnectorSpecView> {
        match String::spec_decode(b, version) {
            Decoded::Value { value: name, rest } => Decoded::Value {
                value: ManagedConnectorSpecView { name },
                rest,
            },
            Decoded::TooShort => Decoded::TooShort,
            Decoded::Invalid => Decoded::Invalid,
        }
    }

    fn decode_from(src: &mut Cursor, version: Version) -> (r: Result<Self, DecodeError>) {
        let name = String::decode_from(src, version)?;
        Ok(ManagedConnectorSpec { name })
    }
}

impl Encoder for ManagedConnectorSpec {
    open spec fn spec_encodable(v: ManagedConnectorSpecView, version: Version) -> bool {
        String::spec_encodable(v.name, version)
    }

    open spec fn spec_encode(v: ManagedConnectorSpecView, version: Version) -> Seq<u8> {
        String::spec_encode(v.name, version)
    }

    fn write_size(&self, version: Version) -> (n: usize) {
        self.name.write_size(version)
    }

    fn encode(&self, dest: &mut Vec<u8>, version: Version) -> (r: Result<(), DecodeError>) {
        self.name.encode(dest, version)
    }

    proof fn round_trip(v: ManagedConnectorSpecView, rest: Seq<u8>, version: Version) {
        String::round_trip(v.name, rest, version);
    }
}

/// Payload for creating a table-format description.
#[derive(Debug, Clone)]
pub struct TableFormatSpec {
    pub name: String,
}

impl TableFormatSpec {
    /// The discriminant tag of this payload in [`ObjectCreateRequest`].
    pub const CREATE_TYPE: u8 = 5;
}

/// Abstract value of a [`TableFormatSpec`].
pub struct TableFormatSpecView {
    pub name: Seq<char>,
}

impl DeepView for TableFormatSpec {
    type V = TableFormatSpecView;

    open spec fn deep_view(&self) -> TableFormatSpecView {
        TableFormatSpecView { name: self.name@ }
    }
}

impl Decoder for TableFormatSpec {
    /// One field: the format name as length-prefixed text.
    open spec fn spec_decode(b: Seq<u8>, version: Version) -> Decoded<TableFormatSpecView> {
        match String::spec_decode(b, version) {
            Decoded::Value { value: name, rest } => Decoded::Value {
                value: TableFormatSpecView { name },
                rest,
            },
            Decoded::TooShort => Decoded::TooShort,
            Decoded::Invalid => Decoded::Invalid,
        }
    }

    fn decode_from(src: &mut Cursor, version: Version) -> (r: Result<Self, DecodeError>) {
        let name = String::decode_from(src, version)?;
        Ok(TableFormatSpec { name })
    }
}

impl Encoder for TableFormatSpec {
    open spec fn spec_encodable(v: TableFormatSpecView, version: Version) -> bool {
        String::spec_encodable(v.name, version)
    }

    open spec fn spec_encode(v: TableFormatSpecView, version: Version) -> Seq<u8> {
        String::spec_encode(v.name, version)
    }

    fn write_size(&self, version: Version) -> (n: usize) {
        self.name.write_size(version)
    }

    fn encode(&self, dest: &mut Vec<u8>, version: Version) -> (r: Result<(), DecodeError>) {
        self.name.encode(dest, version)
    }

    proof fn round_trip(v: TableFormatSpecView, rest: Seq<u8>, version: Version) {
        String::round_trip(v.name, rest, version);
    }
}

/// Payload for creating a derived stream.
#[derive(Debug, Clone)]
pub struct DerivedStreamSpec {
    pub stream: String,
}

impl DerivedStreamSpec {
    /// The discriminant tag of this payload in [`ObjectCreateRequest`].
    pub const CREATE_TYPE: u8 = 6;
}

/// Abstract value of a [`DerivedStreamSpec`].
pub struct DerivedStreamSpecView {
    pub stream: Seq<char>,
}

impl DeepView for DerivedStreamSpec {
    type V = DerivedStreamSpecView;

    open spec fn deep_view(&self) -> DerivedStreamSpecView {
        DerivedStreamSpecView { stream: self.stream@ }
    }
}

impl Decoder for DerivedStreamSpec {
    /// One field: the source stream name as length-prefixed text.
    open spec fn spec_decode(b: Seq<u8>, version: Version) -> Decoded<DerivedStreamSpecView> {
        match String::spec_decode(b, version) {
            Decoded::Value { value: stream, rest } => Decoded::Value {
                value: DerivedStreamSpecView { stream },
                rest,
            },
            Decoded::TooShort => Decoded::TooShort,
            Decoded::Invalid => Decoded::Invalid,
        }
    }

    fn decode_from(src: &mut Cursor, version: Version) -> (r: Result<Self, DecodeError>) {
        let stream = String::decode_from(src, version)?;
        Ok(DerivedStreamSpec { stream })
    }
}

impl Encoder for DerivedStreamSpec {
    open spec fn spec_encodable(v: DerivedStreamSpecView, version: Version) -> bool {
        String::spec_encodable(v.stream, version)
    }

    open spec fn spec_encode(v: DerivedStreamSpecView, version: Version) -> Seq<u8> {
        String::spec_encode(v.stream, version)
    }

    fn write_size(&self, version: Version) -> (n: usize) {
        self.stream.write_size(version)
    }

    fn encode(&self, dest: &mut Vec<u8>, version: Version) -> (r: Result<(), DecodeError>) {
        self.stream.encode(dest, version)
    }

    proof fn round_trip(v: DerivedStreamSpecView, rest: Seq<u8>, version: Version) {
        String::round_trip(v.stream, rest, version);
    }
}

/// Parameters common to every create request.
///
/// The timeout field is gated at minimum protocol version 7: below that
/// version it is neither read from nor written to the wire.
#[derive(Debug, Clone)]
pub struct CommonCreateRequest {
    pub name: String,
    pub dry_run: bool,
    /// Timeout in milliseconds; present on the wire only from version 7 on.
    pub timeout: Option<u32>,
}

/// The wire version from which the timeout field is included.
pub const TIMEOUT_MIN_VERSION: i16 = 7;

/// Abstract value of a [`CommonCreateRequest`].
pub struct CommonCreateRequestView {
    pub name: Seq<char>,
    pub dry_run: bool,
    pub timeout: Option<u32>,
}

impl Default for CommonCreateRequest {
    fn default() -> (r: Self)
        ensures
            r.deep_view().name == Seq::<char>::empty(),
            !r.deep_view().dry_run,
            r.deep_view().timeout is None,
    {
        CommonCreateRequest { name: String::new(), dry_run: false, timeout: None }
    }
}

impl DeepView for CommonCreateRequest {
    type V = CommonCreateRequestView;

    open spec fn deep_view(&self) -> CommonCreateRequestView {
        CommonCreateRequestView {
            name: self.name@,
            dry_run: self.dry_run,
            timeout: self.timeout.deep_view(),
        }
    }
}

impl Decoder for CommonCreateRequest {
    /// The name and the dry-run flag, then — only when the version reaches
    /// the timeout's minimum — the optional timeout; below that version the
    /// field keeps its default and consumes no bytes.
    open spec fn spec_decode(b: Seq<u8>, version: Version) -> Decoded<CommonCreateRequestView> {
        match String::spec_decode(b, version) {
            Decoded::Value { value: name, rest } => {
                match bool::spec_decode(rest, version) {
                    Decoded::Value { value: dry_run, rest } => {
                        if version >= TIMEOUT_MIN_VERSION {
                            match Option::<u32>::spec_decode(rest, version) {
                                Decoded::Value { value: timeout, rest } => Decoded::Value {
                                    value: CommonCreateRequestView { name, dry_run, timeout },
                                    rest,
                                },
                                Decoded::TooShort => Decoded::TooShort,
                                Decoded::Invalid => Decoded::Invalid,
                            }
                        } else {
                            Decoded::Value {
                                value: CommonCreateRequestView { name, dry_run, timeout: None },
                                rest,
                            }
                        }
                    },
                    Decoded::TooShort => Decoded::TooShort,
                    Decoded::Invalid => Decoded::Invalid,
                }
            },
            Decoded::TooShort => Decoded::TooShort,
            Decoded::Invalid => Decoded::Invalid,
        }
    }

    fn decode_from(src: &mut Cursor, version: Version) -> (r: Result<Self, DecodeError>) {
        let name = String::decode_from(src, version)?;
        let dry_run = bool::decode_from(src, version)?;
        let timeout = if version >= TIMEOUT_MIN_VERSION {
            Option::<u32>::decode_from(src, version)?
        } else {
            None
        };
        Ok(CommonCreateRequest { name, dry_run, timeout })
    }
}

impl Encoder for CommonCreateRequest {
    /// The name must fit its length prefix, and below the timeout's minimum
    /// version only a value without a timeout is representable, since the
    /// wire then has no place for one.
    open spec fn spec_encodable(v: CommonCreateRequestView, version: Version) -> bool {
        String::spec_encodable(v.name, version) && (version >= TIMEOUT_MIN_VERSION || v.timeout
            is None)
    }

    open spec fn spec_encode(v: CommonCreateRequestView, version: Version) -> Seq<u8> {
        String::spec_encode(v.name, version) + bool::spec_encode(v.dry_run, version) + (if version
            >= TIMEOUT_MIN_VERSION {
            Option::<u32>::spec_encode(v.timeout, version)
        } else {
            Seq::empty()
        })
    }

    fn write_size(&self, version: Version) -> (n: usize) {
        let tail: usize = if version >= TIMEOUT_MIN_VERSION {
            self.timeout.write_size(version)
        } else {
            0
        };
        self.name.write_size(version) + 1 + tail
    }

    fn encode(&self, dest: &mut Vec<u8>, version: Version) -> (r: Result<(), DecodeError>) {
        let _ = self.name.encode(dest, version);
        let _ = self.dry_run.encode(dest, version);
        if version >= TIMEOUT_MIN_VERSION {
            let _ = self.timeout.encode(dest, version);
        }
        proof {
            assert(final(dest)@ =~= old(dest)@ + Self::spec_encode(self.deep_view(), version));
        }
        Ok(())
    }

    proof fn round_trip(v: CommonCreateRequestView, rest: Seq<u8>, version: Version) {
        let b2 = bool::spec_encode(v.dry_run, version);
        if version >= TIMEOUT_MIN_VERSION {
            let b3 = Option::<u32>::spec_encode(v.timeout, version);
            assert(Self::spec_encode(v, version) + rest =~= String::spec_encode(v.name, version) + (
            b2 + (b3 + rest)));
            String::round_trip(v.name, b2 + (b3 + rest), version);
            bool::round_trip(v.dry_run, b3 + rest, version);
            Option::<u32>::round_trip(v.timeout, rest, version);
        } else {
            assert(Self::spec_encode(v, version) + rest =~= String::spec_encode(v.name, version) + (
            b2 + rest));
            String::round_trip(v.name, b2 + rest, version);
            bool::round_trip(v.dry_run, rest, version);
        }
    }
}

/// A minimal version-gated composite: the second field is present on the
/// wire only from protocol version 2 on; under older versions it keeps its
/// default value and consumes no bytes.
#[derive(Debug, Clone, Copy, PartialEq, Eq, Structural)]
pub struct TestRecord {
    pub value: i8,
    pub value2: i8,
}

impl Default for TestRecord {
    fn default() -> (r: Self)
        ensures
            r == (TestRecord { value: 0, value2: 0 }),
    {
        TestRecord { value: 0, value2: 0 }
    }
}

impl DeepView for TestRecord {
    type V = TestRecord;

    open spec fn deep_view(&self) -> TestRecord {
        *self
    }
}

impl Decoder for TestRecord {
    /// The first field always; the second only from version 2 on.
    open spec fn spec_decode(b: Seq<u8>, version: Version) -> Decoded<TestRecord> {
        match i8::spec_decode(b, version) {
            Decoded::Value { value, rest } => {
                if version > 1 {
                    match i8::spec_decode(rest, version) {
                        Decoded::Value { value: value2, rest } => Decoded::Value {
                            value: TestRecord { value, value2 },
                            rest,
                        },
                        Decoded::TooShort => Decoded::TooShort,
                        Decoded::Invalid => Decoded::Invalid,
                    }
                } else {
                    Decoded::Value { value: TestRecord { value, value2: 0 }, rest }
                }
            },
            Decoded::TooShort => Decoded::TooShort,
            Decoded::Invalid => Decoded::Invalid,
        }
    }

    fn decode_from(src: &mut Cursor, version: Version) -> (r: Result<Self, DecodeError>) {
        let value = i8::decode_from(src, version)?;
        let value2 = if version > 1 {
            i8::decode_from(src, version)?
        } else {
            0
        };
        Ok(TestRecord { value, value2 })
    }
}

impl Encoder for TestRecord {
    /// Below version 2 the wire has no place for the gated field, so only a
    /// value holding its default is representable there.
    open spec fn spec_encodable(v: TestRecord, version: Version) -> bool {
        version > 1 || v.value2 == 0
    }

    open spec fn spec_encode(v: TestRecord, version: Version) -> Seq<u8> {
        i8::spec_encode(v.value, version) + (if version > 1 {
            i8::spec_encode(v.value2, version)
        } else {
            Seq::empty()
        })
    }

    fn write_size(&self, version: Version) -> (n: usize) {
        if version > 1 {
            2
        } else {
            1
        }
    }

    fn encode(&self, dest: &mut Vec<u8>, version: Version) -> (r: Result<(), DecodeError>) {
        let _ = self.value.encode(dest, version);
        if version > 1 {
            let _ = self.value2.encode(dest, version);
        }
        proof {
            assert(final(dest)@ =~= old(dest)@ + Self::spec_encode(self.deep_view(), version));
        }
        Ok(())
    }

    proof fn round_trip(v: TestRecord, rest: Seq<u8>, version: Version) {
        if version > 1 {
            let b2 = i8::spec_encode(v.value2, version);
            assert(Self::spec_encode(v, version) + rest =~= i8::spec_encode(v.value, version) + (b2
                + rest));
            i8::round_trip(v.value, b2 + rest, version);
            i8::round_trip(v.value2, rest, version);
        } else {
            assert(Self::spec_encode(v, version) + rest =~= i8::spec_encode(v.value, version)
                + rest);
            i8::round_trip(v.value, rest, version);
        }
    }
}

/// One of the known create-request payload shapes, dispatched on the wire
/// by a single leading discriminant byte.
///
/// The tag table lives in each payload's `CREATE_TYPE` constant; encode and
/// decode both dispatch over it, and the match in each stays exhaustive over
/// the variants, so the three places cannot drift apart.
#[derive(Debug, Clone)]
pub enum ObjectCreateRequest {
    Topic(TopicSpec),
    CustomSpu(CustomSpuSpec),
    SmartModule(SmartModuleSpec),
    ManagedConnector(ManagedConnectorSpec),
    SpuGroup(SpuGroupSpec),
    TableFormat(TableFormatSpec),
    DerivedStream(DerivedStreamSpec),
}

/// Abstract value of an [`ObjectCreateRequest`].
pub enum ObjectCreateRequestView {
    Topic(TopicSpec),
    CustomSpu(CustomSpuSpec),
    SmartModule(SmartModuleSpecView),
    ManagedConnector(ManagedConnectorSpecView),
    SpuGroup(SpuGroupSpec),
    TableFormat(TableFormatSpecView),
    DerivedStream(DerivedStreamSpecView),
}

impl Default for ObjectCreateRequest {
    /// The designated default variant is the first one.
    fn default() -> (r: Self)
        ensures
            r.deep_view() == ObjectCreateRequestView::Topic(
                TopicSpec { partitions: 0, replication_factor: 0, ignore_rack_assignment: false },
            ),
    {
        ObjectCreateRequest::Topic(TopicSpec::default())
    }
}

impl DeepView for ObjectCreateRequest {
    type V = ObjectCreateRequestView;

    open spec fn deep_view(&self) -> ObjectCreateRequestView {
        match self {
            ObjectCreateRequest::Topic(s) => ObjectCreateRequestView::Topic(s.deep_view()),
            ObjectCreateRequest::CustomSpu(s) => ObjectCreateRequestView::CustomSpu(s.deep_view()),
            ObjectCreateRequest::SmartModule(s) => ObjectCreateRequestView::SmartModule(
                s.deep_view(),
            ),
            ObjectCreateRequest::ManagedConnector(s) => ObjectCreateRequestView::ManagedConnector(
                s.deep_view(),
            ),
            ObjectCreateRequest::SpuGroup(s) => ObjectCreateRequestView::SpuGroup(s.deep_view()),
            ObjectCreateRequest::TableFormat(s) => ObjectCreateRequestView::TableFormat(
                s.deep_view(),
            ),
            ObjectCreateRequest::DerivedStream(s) => ObjectCreateRequestView::DerivedStream(
                s.deep_view(),
            ),
        }
    }
}

/// The discriminant tag of an abstract payload value.
pub open spec fn spec_type_value(v: ObjectCreateRequestView) -> u8 {
    match v {
        ObjectCreateRequestView::Topic(_) => TopicSpec::CREATE_TYPE,
        ObjectCreateRequestView::CustomSpu(_) => CustomSpuSpec::CREATE_TYPE,
        ObjectCreateRequestView::SmartModule(_) => SmartModuleSpec::CREATE_TYPE,
        ObjectCreateRequestView::ManagedConnector(_) => ManagedConnectorSpec::CREATE_TYPE,
        ObjectCreateRequestView::SpuGroup(_) => SpuGroupSpec::CREATE_TYPE,
        ObjectCreateRequestView::TableFormat(_) => TableFormatSpec::CREATE_TYPE,
        ObjectCreateRequestView::DerivedStream(_) => DerivedStreamSpec::CREATE_TYPE,
    }
}

impl ObjectCreateRequest {
    /// The discriminant tag of the active variant.
    pub fn type_value(&self) -> (t: u8)
        ensures
            t == spec_type_value(self.deep_view()),
    {
        match self {
            ObjectCreateRequest::Topic(_) => TopicSpec::CREATE_TYPE,
            ObjectCreateRequest::CustomSpu(_) => CustomSpuSpec::CREATE_TYPE,
            ObjectCreateRequest::SmartModule(_) => SmartModuleSpec::CREATE_TYPE,
            ObjectCreateRequest::ManagedConnector(_) => ManagedConnectorSpec::CREATE_TYPE,
            ObjectCreateRequest::SpuGroup(_) => SpuGroupSpec::CREATE_TYPE,
            ObjectCreateRequest::TableFormat(_) => TableFormatSpec::CREATE_TYPE,
            ObjectCreateRequest::DerivedStream(_) => DerivedStreamSpec::CREATE_TYPE,
        }
    }
}

impl Decoder for ObjectCreateRequest {
    /// One discriminant byte selects which payload's layout follows; an
    /// unrecognized tag is invalid data, never a silent fallback.
    open spec fn spec_decode(b: Seq<u8>, version: Version) -> Decoded<ObjectCreateRequestView> {
        match u8::spec_decode(b, version) {
            Decoded::Value { value: tag, rest } => {
                if tag == TopicSpec::CREATE_TYPE {
                    match TopicSpec::spec_decode(rest, version) {
                        Decoded::Value { value, rest } => Decoded::Value {
                            value: ObjectCreateRequestView::Topic(value),
                            rest,
                        },
                        Decoded::TooShort => Decoded::TooShort,
                        Decoded::Invalid => Decoded::Invalid,
                    }
                } else if tag == CustomSpuSpec::CREATE_TYPE {
                    match CustomSpuSpec::spec_decode(rest, version) {
                        Decoded::Value { value, rest } => Decoded::Value {
                            value: ObjectCreateRequestView::CustomSpu(value),
                            rest,
                        },
                        Decoded::TooShort => Decoded::TooShort,
                        Decoded::Invalid => Decoded::Invalid,
                    }
                } else if tag == SpuGroupSpec::CREATE_TYPE {
                    match SpuGroupSpec::spec_decode(rest, version) {
                        Decoded::Value { value, rest } => Decoded::Value {
                            value: ObjectCreateRequestView::SpuGroup(value),
                            rest,
                        },
                        Decoded::TooShort => Decoded::TooShort,
                        Decoded::Invalid => Decoded::Invalid,
                    }
                } else if tag == SmartModuleSpec::CREATE_TYPE {
                    match SmartModuleSpec::spec_decode(rest, version) {
                        Decoded::Value { value, rest } => Decoded::Value {
                            value: ObjectCreateRequestView::SmartModule(value),
                            rest,
                        },
                        Decoded::TooShort => Decoded::TooShort,
                        Decoded::Invalid => Decoded::Invalid,
                    }
                } else if tag == ManagedConnectorSpec::CREATE_TYPE {
                    match ManagedConnectorSpec::spec_decode(rest, version) {
                        Decoded::Value { value, rest } => Decoded::Value {
                            value: ObjectCreateRequestView::ManagedConnector(value),
                            rest,
                        },
                        Decoded::TooShort => Decoded::TooShort,
                        Decoded::Invalid => Decoded::Invalid,
                    }
                } else if tag == TableFormatSpec::CREATE_TYPE {
                    match TableFormatSpec::spec_decode(rest, version) {
                        Decoded::Value { value, rest } => Decoded::Value {
                            value: ObjectCreateRequestView::TableFormat(value),
                            rest,
                        },
                        Decoded::TooShort => Decoded::TooShort,
                        Decoded::Invalid => Decoded::Invalid,
                    }
                } else if tag == DerivedStreamSpec::CREATE_TYPE {
                    match DerivedStreamSpec::spec_decode(rest, version) {
                        Decoded::Value { value, rest } => Decoded::Value {
                            value: ObjectCreateRequestView::DerivedStream(value),
                            rest,
                        },
                        Decoded::TooShort => Decoded::TooShort,
                        Decoded::Invalid => Decoded::Invalid,
                    }
                } else {
                    Decoded::Invalid
                }
            },
            Decoded::TooShort => Decoded::TooShort,
            Decoded::Invalid => Decoded::Invalid,
        }
    }

    fn decode_from(src: &mut Cursor, version: Version) -> (r: Result<Self, DecodeError>) {
        let tag = u8::decode_from(src, version)?;
        if tag == TopicSpec::CREATE_TYPE {
            let request = TopicSpec::decode_from(src, version)?;
            Ok(ObjectCreateRequest::Topic(request))
        } else if tag == CustomSpuSpec::CREATE_TYPE {
            let request = CustomSpuSpec::decode_from(src, version)?;
            Ok(ObjectCreateRequest::CustomSpu(request))
        } else if tag == SpuGroupSpec::CREATE_TYPE {
            let request = SpuGroupSpec::decode_from(src, version)?;
            Ok(ObjectCreateRequest::SpuGroup(request))
        } else if tag == SmartModuleSpec::CREATE_TYPE {
            let request = SmartModuleSpec::decode_from(src, version)?;
            Ok(ObjectCreateRequest::SmartModule(request))
        } else if tag == ManagedConnectorSpec::CREATE_TYPE {
            let request = ManagedConnectorSpec::decode_from(src, version)?;
            Ok(ObjectCreateRequest::ManagedConnector(request))
        } else if tag == TableFormatSpec::CREATE_TYPE {
            let request = TableFormatSpec::decode_from(src, version)?;
            Ok(ObjectCreateRequest::TableFormat(request))
        } else if tag == DerivedStreamSpec::CREATE_TYPE {
            let request = DerivedStreamSpec::decode_from(src, version)?;
            Ok(ObjectCreateRequest::DerivedStream(request))
        } else {
            Err(DecodeError::InvalidData)
        }
    }
}

impl Encoder for ObjectCreateRequest {
    /// Representable exactly when the active payload is.
    open spec fn spec_encodable(v: ObjectCreateRequestView, version: Version) -> bool {
        match v {
            ObjectCreateRequestView::Topic(s) => TopicSpec::spec_encodable(s, version),
            ObjectCreateRequestView::CustomSpu(s) => CustomSpuSpec::spec_encodable(s, version),
            ObjectCreateRequestView::SmartModule(s) => SmartModuleSpec::spec_encodable(s, version)
                && 1 + SmartModuleSpec::spec_encode(s, version).len() <= usize::MAX,
            ObjectCreateRequestView::ManagedConnector(s) => ManagedConnectorSpec::spec_encodable(
                s,
                version,
            ),
            ObjectCreateRequestView::SpuGroup(s) => SpuGroupSpec::spec_encodable(s, version),
            ObjectCreateRequestView::TableFormat(s) => TableFormatSpec::spec_encodable(s, version),
            ObjectCreateRequestView::DerivedStream(s) => DerivedStreamSpec::spec_encodable(
                s,
                version,
            ),
        }
    }

    /// The discriminant byte, then the active payload's canonical bytes.
    open spec fn spec_encode(v: ObjectCreateRequestView, version: Version) -> Seq<u8> {
        seq![spec_type_value(v)] + (match v {
            ObjectCreateRequestView::Topic(s) => TopicSpec::spec_encode(s, version),
            ObjectCreateRequestView::CustomSpu(s) => CustomSpuSpec::spec_encode(s, version),
            ObjectCreateRequestView::SmartModule(s) => SmartModuleSpec::spec_encode(s, version),
            ObjectCreateRequestView::ManagedConnector(s) => ManagedConnectorSpec::spec_encode(
                s,
                version,
            ),
            ObjectCreateRequestView::SpuGroup(s) => SpuGroupSpec::spec_encode(s, version),
            ObjectCreateRequestView::TableFormat(s) => TableFormatSpec::spec_encode(s, version),
            ObjectCreateRequestView::DerivedStream(s) => DerivedStreamSpec::spec_encode(
                s,
                version,
            ),
        })
    }

    fn write_size(&self, version: Version) -> (n: usize) {
        let payload = match self {
            ObjectCreateRequest::Topic(s) => s.write_size(version),
            ObjectCreateRequest::CustomSpu(s) => s.write_size(version),
            ObjectCreateRequest::SmartModule(s) => s.write_size(version),
            ObjectCreateRequest::ManagedConnector(s) => s.write_size(version),
            ObjectCreateRequest::SpuGroup(s) => s.write_size(version),
            ObjectCreateRequest::TableFormat(s) => s.write_size(version),
            ObjectCreateRequest::DerivedStream(s) => s.write_size(version),
        };
        1 + payload
    }

    fn encode(&self, dest: &mut Vec<u8>, version: Version) -> (r: Result<(), DecodeError>) {
        let tag = self.type_value();
        let _ = tag.encode(dest, version);
        match self {
            ObjectCreateRequest::Topic(s) => {
                let _ = s.encode(dest, version);
            },
            ObjectCreateRequest::CustomSpu(s) => {
                let _ = s.encode(dest, version);
            },
            ObjectCreateRequest::SmartModule(s) => {
                let _ = s.encode(dest, version);
            },
            ObjectCreateRequest::ManagedConnector(s) => {
                let _ = s.encode(dest, version);
            },
            ObjectCreateRequest::SpuGroup(s) => {
                let _ = s.encode(dest, version);
            },
            ObjectCreateRequest::TableFormat(s) => {
                let _ = s.encode(dest, version);
            },
            ObjectCreateRequest::DerivedStream(s) => {
                let _ = s.encode(dest, version);
            },
        }
        proof {
            assert(final(dest)@ =~= old(dest)@ + Self::spec_encode(self.deep_view(), version));
        }
        Ok(())
    }

    proof fn round_trip(v: ObjectCreateRequestView, rest: Seq<u8>, version: Version) {
        let tag = spec_type_value(v);
        let all = Self::spec_encode(v, version) + rest;
        assert(all[0] == tag);
        match v {
            ObjectCreateRequestView::Topic(s) => {
                assert(all.skip(1) =~= TopicSpec::spec_encode(s, version) + rest);
                TopicSpec::round_trip(s, rest, version);
            },
            ObjectCreateRequestView::CustomSpu(s) => {
                assert(all.skip(1) =~= CustomSpuSpec::spec_encode(s, version) + rest);
                CustomSpuSpec::round_trip(s, rest, version);
            },
            ObjectCreateRequestView::SmartModule(s) => {
                assert(all.skip(1) =~= SmartModuleSpec::spec_encode(s, version) + rest);
                SmartModuleSpec::round_trip(s, rest, version);
            },
            ObjectCreateRequestView::ManagedConnector(s) => {
                assert(all.skip(1) =~= ManagedConnectorSpec::spec_encode(s, version) + rest);
                ManagedConnectorSpec::round_trip(s, rest, version);
            },
            ObjectCreateRequestView::SpuGroup(s) => {
                assert(all.skip(1) =~= SpuGroupSpec::spec_encode(s, version) + rest);
                SpuGroupSpec::round_trip(s, rest, version);
            },
            ObjectCreateRequestView::TableFormat(s) => {
                assert(all.skip(1) =~= TableFormatSpec::spec_encode(s, version) + rest);
                TableFormatSpec::round_trip(s, rest, version);
            },
            ObjectCreateRequestView::DerivedStream(s) => {
                assert(all.skip(1) =~= DerivedStreamSpec::spec_encode(s, version) + rest);
                DerivedStreamSpec::round_trip(s, rest, version);
            },
        }
    }
}

/// A create request for one payload type.
#[derive(Debug, Clone)]
pub struct CreateRequest<S> {
    pub request: S,
}

impl<S: DeepView> DeepView for CreateRequest<S> {
    type V = <S as DeepView>::V;

    open spec fn deep_view(&self) -> <S as DeepView>::V {
        self.request.deep_view()
    }
}

impl<S: Decoder> Decoder for CreateRequest<S> {
    /// Exactly the payload's own layout.
    open spec fn spec_decode(b: Seq<u8>, version: Version) -> Decoded<<S as DeepView>::V> {
        S::spec_decode(b, version)
    }

    fn decode_from(src: &mut Cursor, version: Version) -> (r: Result<Self, DecodeError>) {
        let request = S::decode_from(src, version)?;
        Ok(CreateRequest { request })
    }
}

impl<S: Encoder> Encoder for CreateRequest<S> {
    open spec fn spec_encodable(v: <S as DeepView>::V, version: Version) -> bool {
        S::spec_encodable(v, version)
    }

    open spec fn spec_encode(v: <S as DeepView>::V, version: Version) -> Seq<u8> {
        S::spec_encode(v, version)
    }

    fn write_size(&self, version: Version) -> (n: usize) {
        self.request.write_size(version)
    }

    fn encode(&self, dest: &mut Vec<u8>, version: Version) -> (r: Result<(), DecodeError>) {
        self.request.encode(dest, version)
    }

    proof fn round_trip(v: <S as DeepView>::V, rest: Seq<u8>, version: Version) {
        S::round_trip(v, rest, version);
    }
}

/// The top-level create request: the common parameters, then the dispatched
/// payload.
#[derive(Debug, Clone)]
pub struct ObjectApiCreateRequest {
    pub common: CommonCreateRequest,
    pub request: ObjectCreateRequest,
}

/// Abstract value of an [`ObjectApiCreateRequest`].
pub struct ObjectApiCreateRequestView {
    pub common: CommonCreateRequestView,
    pub request: ObjectCreateRequestView,
}

impl Default for ObjectApiCreateRequest {
    fn default() -> (r: Self)
        ensures
            r.deep_view().common.name == Seq::<char>::empty(),
            !r.deep_view().common.dry_run,
            r.deep_view().common.timeout is None,
            r.deep_view().request == ObjectCreateRequestView::Topic(
                TopicSpec { partitions: 0, replication_factor: 0, ignore_rack_assignment: false },
            ),
    {
        ObjectApiCreateRequest {
            common: CommonCreateRequest::default(),
            request: ObjectCreateRequest::default(),
        }
    }
}

impl DeepView for ObjectApiCreateRequest {
    type V = ObjectApiCreateRequestView;

    open spec fn deep_view(&self) -> ObjectApiCreateRequestView {
        ObjectApiCreateRequestView {
            common: self.common.deep_view(),
            request: self.request.deep_view(),
        }
    }
}

impl Decoder for ObjectApiCreateRequest {
    /// The common parameters, then the tagged payload.
    open spec fn spec_decode(b: Seq<u8>, version: Version) -> Decoded<ObjectApiCreateRequestView> {
        match CommonCreateRequest::spec_decode(b, version) {
            Decoded::Value { value: common, rest } => {
                match ObjectCreateRequest::spec_decode(rest, version) {
                    Decoded::Value { value: request, rest } => Decoded::Value {
                        value: ObjectApiCreateRequestView { common, request },
                        rest,
                    },
                    Decoded::TooShort => Decoded::TooShort,
                    Decoded::Invalid => Decoded::Invalid,
                }
            },
            Decoded::TooShort => Decoded::TooShort,
            Decoded::Invalid => Decoded::Invalid,
        }
    }

    fn decode_from(src: &mut Cursor, version: Version) -> (r: Result<Self, DecodeError>) {
        let common = CommonCreateRequest::decode_from(src, version)?;
        let request = ObjectCreateRequest::decode_from(src, version)?;
        Ok(ObjectApiCreateRequest { common, request })
    }
}

impl Encoder for ObjectApiCreateRequest {
    open spec fn spec_encodable(v: ObjectApiCreateRequestView, version: Version) -> bool {
        CommonCreateRequest::spec_encodable(v.common, version)
            && ObjectCreateRequest::spec_encodable(v.request, version)
            && CommonCreateRequest::spec_encode(v.common, version).len()
            + ObjectCreateRequest::spec_encode(v.request, version).len() <= usize::MAX
    }

    open spec fn spec_encode(v: ObjectApiCreateRequestView, version: Version) -> Seq<u8> {
        CommonCreateRequest::spec_encode(v.common, version) + ObjectCreateRequest::spec_encode(
            v.request,
            version,
        )
    }

    fn write_size(&self, version: Version) -> (n: usize) {
        self.common.write_size(version) + self.request.write_size(version)
    }

    fn encode(&self, dest: &mut Vec<u8>, version: Version) -> (r: Result<(), DecodeError>) {
        let _ = self.common.encode(dest, version);
        let _ = self.request.encode(dest, version);
        proof {
            assert(final(dest)@ =~= old(dest)@ + Self::spec_encode(self.deep_view(), version));
        }
        Ok(())
    }

    proof fn round_trip(v: ObjectApiCreateRequestView, rest: Seq<u8>, version: Version) {
        let b2 = ObjectCreateRequest::spec_encode(v.request, version);
        assert(Self::spec_encode(v, version) + rest =~= CommonCreateRequest::spec_encode(
            v.common,
            version,
        ) + (b2 + rest));
        CommonCreateRequest::round_trip(v.common, b2 + rest, version);
        ObjectCreateRequest::round_trip(v.request, rest, version);
    }
}

} // verus!
