use vstd::prelude::*;
use vstd::string::StringExecFns;

verus! {

/// The driver's status code for success.
pub const MMAL_SUCCESS: u32 = 0;

/// The driver's largest status code; also used where the driver gives no status at all.
pub const MMAL_STATUS_MAX: u32 = 0x7fff_ffff;

/// The driver's name for each of its status codes.
pub open spec fn status_name(code: u32) -> Seq<char> {
    if code == 0 {
        "SUCCESS"@
    } else if code == 1 {
        "ENOMEM"@
    } else if code == 2 {
        "ENOSPC"@
    } else if code == 3 {
        "EINVAL"@
    } else if code == 4 {
        "ENOSYS"@
    } else if code == 5 {
        "ENOENT"@
    } else if code == 6 {
        "ENXIO"@
    } else if code == 7 {
        "EIO"@
    } else if code == 8 {
        "ESPIPE"@
    } else if code == 9 {
        "ECORRUPT"@
    } else if code == 10 {
        "ENOTREADY"@
    } else if code == 11 {
        "ECONFIG"@
    } else if code == 12 {
        "EISCONN"@
    } else if code == 13 {
        "ENOTCONN"@
    } else if code == 14 {
        "EAGAIN"@
    } else if code == 15 {
        "EFAULT"@
    } else {
        "UNKNOWN"@
    }
}

/// What a failed driver operation reports: what was attempted and the native status.
#[derive(Debug)]
pub struct MmalError {
    message: String,
    status_code: u32,
}

impl MmalError {
    pub closed spec fn spec_message(&self) -> Seq<char> {
        self.message@
    }

    pub closed spec fn spec_status_code(&self) -> u32 {
        self.status_code
    }

    pub fn with_status(message: String, status_code: u32) -> (r: MmalError)
        ensures
            r.spec_message() == message@,
            r.spec_status_code() == status_code,
    {
        MmalError { message, status_code }
    }

    pub fn message(&self) -> (r: &str)
        ensures
            r@ == self.spec_message(),
    {
        self.message.as_str()
    }

    pub fn status_code(&self) -> (r: u32)
        ensures
            r == self.spec_status_code(),
    {
        self.status_code
    }

    /// The driver's name of the status code.
    pub fn status(&self) -> (r: &'static str)
        ensures
            r@ == status_name(self.spec_status_code()),
    {
        let c = self.status_code;
        if c == 0 {
            "SUCCESS"
        } else if c == 1 {
            "ENOMEM"
        } else if c == 2 {
            "ENOSPC"
        } else if c == 3 {
            "EINVAL"
        } else if c == 4 {
            "ENOSYS"
        } else if c == 5 {
            "ENOENT"
        } else if c == 6 {
            "ENXIO"
        } else if c == 7 {
            "EIO"
        } else if c == 8 {
            "ESPIPE"
        } else if c == 9 {
            "ECORRUPT"
        } else if c == 10 {
            "ENOTREADY"
        } else if c == 11 {
            "ECONFIG"
        } else if c == 12 {
            "EISCONN"
        } else if c == 13 {
            "ENOTCONN"
        } else if c == 14 {
            "EAGAIN"
        } else if c == 15 {
            "EFAULT"
        } else {
            "UNKNOWN"
        }
    }

    /// The message, followed by the status name unless the code is the success code
    /// (which marks an error that carries no status).
    pub fn describe(&self) -> (r: String)
        ensures
            self.spec_status_code() == MMAL_SUCCESS ==> r@ == self.spec_message(),
            self.spec_status_code() != MMAL_SUCCESS ==> r@ == self.spec_message()
                + " Status: "@ + status_name(self.spec_status_code()),
    {
        let mut s = self.message.clone();
        if self.status_code != MMAL_SUCCESS {
            s.append(" Status: ");
            s.append(self.status());
        }
        s
    }
}

#[verifier::external_type_specification]
#[verifier::external_body]
pub struct ExRecvError(std::sync::mpsc::RecvError);

#[verifier::external_type_specification]
#[verifier::external_body]
pub struct ExIoError(std::io::Error);

/// The kinds of failure a camera operation reports.
#[derive(Debug)]
#[non_exhaustive]
pub enum ErrorKind {
    /// A driver operation returned a status other than success.
    Mmal(MmalError),
    /// The data channel closed before end-of-stream was sent.
    Recv(std::sync::mpsc::RecvError),
    /// Writing captured bytes to a sink failed.
    Io(std::io::Error),
    /// A capture was asked of a device that already has one in flight.
    Busy,
}

/// Any error returned by a camera operation.
#[derive(Debug)]
pub struct CameraError(pub Box<ErrorKind>);

impl CameraError {
    pub open spec fn spec_kind(&self) -> &ErrorKind {
        &*self.0
    }

    /// A driver error with the given message and status.
    pub open spec fn is_driver(&self, message: Seq<char>, status_code: u32) -> bool {
        &&& self.spec_kind() is Mmal
        &&& self.spec_kind()->Mmal_0.spec_message() == message
        &&& self.spec_kind()->Mmal_0.spec_status_code() == status_code
    }

    /// A driver error whose message is the given literal.
    pub fn driver(message: &str, status_code: u32) -> (r: CameraError)
        ensures
            r.is_driver(message@, status_code),
    {
        CameraError(Box::new(ErrorKind::Mmal(MmalError::with_status(message.to_owned(), status_code))))
    }

    /// The error for a capture asked of a device that already has one in flight.
    pub fn busy() -> (r: CameraError)
        ensures
            r.spec_kind() is Busy,
    {
        CameraError(Box::new(ErrorKind::Busy))
    }

    /// The specific kind of this error.
    pub fn kind(&self) -> (r: &ErrorKind)
        ensures
            r == self.spec_kind(),
    {
        &*self.0
    }

    /// Unwrap this error into its underlying kind.
    pub fn into_kind(self) -> (r: ErrorKind)
        ensures
            r == *self.spec_kind(),
    {
        *self.0
    }
}

impl From<MmalError> for CameraError {
    fn from(err: MmalError) -> (r: CameraError) {
        CameraError(Box::new(ErrorKind::Mmal(err)))
    }
}

impl vstd::std_specs::convert::FromSpecImpl<MmalError> for CameraError {
    open spec fn obeys_from_spec() -> bool {
        true
    }

    open spec fn from_spec(err: MmalError) -> CameraError {
        CameraError(Box::new(ErrorKind::Mmal(err)))
    }
}

impl From<std::sync::mpsc::RecvError> for CameraError {
    fn from(err: std::sync::mpsc::RecvError) -> (r: CameraError) {
        CameraError(Box::new(ErrorKind::Recv(err)))
    }
}

impl vstd::std_specs::convert::FromSpecImpl<std::sync::mpsc::RecvError> for CameraError {
    open spec fn obeys_from_spec() -> bool {
        true
    }

    open spec fn from_spec(err: std::sync::mpsc::RecvError) -> CameraError {
        CameraError(Box::new(ErrorKind::Recv(err)))
    }
}

impl From<std::io::Error> for CameraError {
    fn from(err: std::io::Error) -> (r: CameraError) {
        CameraError(Box::new(ErrorKind::Io(err)))
    }
}

impl vstd::std_specs::convert::FromSpecImpl<std::io::Error> for CameraError {
    open spec fn obeys_from_spec() -> bool {
        true
    }

    open spec fn from_spec(err: std::io::Error) -> CameraError {
        CameraError(Box::new(ErrorKind::Io(err)))
    }
}

} // verus!
