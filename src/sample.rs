use vstd::prelude::*;

verus! {

/// A field of the report that the measurement tool prints.
#[derive(Clone, Copy, Debug, PartialEq, Eq, Structural)]
pub enum Field {
    Timestamp,
    Download,
    Upload,
    Ping,
    BytesSent,
    BytesReceived,
}

impl Field {
    /// The key under which the tool's report holds the field.
    pub open spec fn key_spec(self) -> Seq<char> {
        match self {
            Field::Timestamp => "timestamp"@,
            Field::Download => "download"@,
            Field::Upload => "upload"@,
            Field::Ping => "ping"@,
            Field::BytesSent => "bytes_sent"@,
            Field::BytesReceived => "bytes_received"@,
        }
    }

    pub fn key(&self) -> (r: &'static str)
        ensures
            r@ == self.key_spec(),
    {
        match self {
            Field::Timestamp => "timestamp",
            Field::Download => "download",
            Field::Upload => "upload",
            Field::Ping => "ping",
            Field::BytesSent => "bytes_sent",
            Field::BytesReceived => "bytes_received",
        }
    }
}

/// Why one sampling attempt produced no record.
#[derive(Clone, Copy, Debug, PartialEq, Eq, Structural)]
pub enum SampleError {
    /// The tool's output is not a JSON document.
    Malformed,
    /// The report lacks the field, or holds it with the wrong type.
    MissingField(Field),
    /// The timestamp text is not an RFC 3339 date and time.
    BadTimestamp,
}

/// One measurement, ready to be stored. `N` is the type that carries the
/// throughput, latency and byte figures.
pub struct Measurement<N> {
    pub timestamp: i64,
    pub download: N,
    pub upload: N,
    pub ping: N,
    pub bytes_sent: N,
    pub bytes_received: N,
}

/// The record made from a timestamp outcome and the five numeric fields as
/// found in a report: the first failure, in field order, or the whole
/// record.
pub open spec fn assemble_spec<N>(
    seconds: Result<i64, SampleError>,
    download: Option<N>,
    upload: Option<N>,
    ping: Option<N>,
    bytes_sent: Option<N>,
    bytes_received: Option<N>,
) -> Result<Measurement<N>, SampleError> {
    match seconds {
        Err(e) => Err(e),
        Ok(t) => if download is None {
            Err(SampleError::MissingField(Field::Download))
        } else if upload is None {
            Err(SampleError::MissingField(Field::Upload))
        } else if ping is None {
            Err(SampleError::MissingField(Field::Ping))
        } else if bytes_sent is None {
            Err(SampleError::MissingField(Field::BytesSent))
        } else if bytes_received is None {
            Err(SampleError::MissingField(Field::BytesReceived))
        } else {
            Ok(
                Measurement {
                    timestamp: t,
                    download: download->0,
                    upload: upload->0,
                    ping: ping->0,
                    bytes_sent: bytes_sent->0,
                    bytes_received: bytes_received->0,
                },
            )
        },
    }
}

impl<N> Measurement<N> {
    /// Builds the record from what a report held: every field is mandatory,
    /// and the first one missing, in field order, is the error.
    pub fn from_fields(
        seconds: Result<i64, SampleError>,
        download: Option<N>,
        upload: Option<N>,
        ping: Option<N>,
        bytes_sent: Option<N>,
        bytes_received: Option<N>,
    ) -> (r: Result<Measurement<N>, SampleError>)
        ensures
            r == assemble_spec(seconds, download, upload, ping, bytes_sent, bytes_received),
            r is Ok <==> (seconds is Ok && download is Some && upload is Some && ping is Some
                && bytes_sent is Some && bytes_received is Some),
    {
        let timestamp = match seconds {
            Err(e) => return Err(e),
            Ok(t) => t,
        };
        let download = match download {
            None => return Err(SampleError::MissingField(Field::Download)),
            Some(v) => v,
        };
        let upload = match upload {
            None => return Err(SampleError::MissingField(Field::Upload)),
            Some(v) => v,
        };
        let ping = match ping {
            None => return Err(SampleError::MissingField(Field::Ping)),
            Some(v) => v,
        };
        let bytes_sent = match bytes_sent {
            None => return Err(SampleError::MissingField(Field::BytesSent)),
            Some(v) => v,
        };
        let bytes_received = match bytes_received {
            None => return Err(SampleError::MissingField(Field::BytesReceived)),
            Some(v) => v,
        };
        Ok(Measurement { timestamp, download, upload, ping, bytes_sent, bytes_received })
    }
}

/// A report without a ping figure yields no record at all, whatever else
/// it holds: the attempt fails on that field and nothing partial is kept.
pub proof fn lemma_missing_ping_rejected<N>(
    seconds: Result<i64, SampleError>,
    download: Option<N>,
    upload: Option<N>,
    bytes_sent: Option<N>,
    bytes_received: Option<N>,
)
    requires
        seconds is Ok,
        download is Some,
        upload is Some,
    ensures
        assemble_spec(seconds, download, upload, None, bytes_sent, bytes_received) == Err::<
            Measurement<N>,
            SampleError,
        >(SampleError::MissingField(Field::Ping)),
{
}

/// The timestamp outcome of a report: missing when the report holds no
/// timestamp text, rejected when the text does not parse.
pub open spec fn timestamp_spec(text: Option<Seq<char>>) -> Result<i64, SampleError> {
    match text {
        None => Err(SampleError::MissingField(Field::Timestamp)),
        Some(s) => match crate::timestamp::rfc3339_seconds(s) {
            Some(t) => Ok(t),
            None => Err(SampleError::BadTimestamp),
        },
    }
}

/// Reads the timestamp field's text, if the report had one.
pub fn timestamp_from_text(text: Option<&str>) -> (r: Result<i64, SampleError>)
    ensures
        r == timestamp_spec(
            match text {
                Some(s) => Some(s@),
                None => None,
            },
        ),
{
    match text {
        None => Err(SampleError::MissingField(Field::Timestamp)),
        Some(s) => match crate::timestamp::epoch_seconds(s) {
            Some(t) => Ok(t),
            None => Err(SampleError::BadTimestamp),
        },
    }
}

} // verus!
