//! What the protocol says a refusal means, status by status.

use vstd::prelude::*;

verus! {

/// Why a sender refused to say what it offers.
#[derive(Debug, Clone, Copy, PartialEq, Eq, Structural)]
pub enum DownloadRequestError {
    /// 401: a PIN is wanted, or the PIN was wrong.
    Http401,
    /// 403: the sender said no.
    Http403,
    /// 429: too many requests.
    Http429,
    /// 500: the sender failed.
    Http500,
}

impl DownloadRequestError {
    /// The status that stands for the refusal.
    pub open spec fn spec_status(self) -> u16 {
        match self {
            DownloadRequestError::Http401 => 401,
            DownloadRequestError::Http403 => 403,
            DownloadRequestError::Http429 => 429,
            DownloadRequestError::Http500 => 500,
        }
    }

    /// The refusal that a status stands for, if it stands for one.
    pub open spec fn spec_from_status(status: u16) -> Option<DownloadRequestError> {
        if status == 401 {
            Some(DownloadRequestError::Http401)
        } else if status == 403 {
            Some(DownloadRequestError::Http403)
        } else if status == 429 {
            Some(DownloadRequestError::Http429)
        } else if status == 500 {
            Some(DownloadRequestError::Http500)
        } else {
            None
        }
    }

    /// What the refusal says to a reader.
    pub open spec fn shown(self) -> Seq<char> {
        match self {
            DownloadRequestError::Http401 => "PIN required / Invalid PIN"@,
            DownloadRequestError::Http403 => "Rejected"@,
            DownloadRequestError::Http429 => "Too many requests"@,
            DownloadRequestError::Http500 => "Unknown error by sender"@,
        }
    }

    #[verifier::when_used_as_spec(spec_status)]
    pub fn status(self) -> (out: u16)
        ensures
            out == self.spec_status(),
    {
        match self {
            DownloadRequestError::Http401 => 401,
            DownloadRequestError::Http403 => 403,
            DownloadRequestError::Http429 => 429,
            DownloadRequestError::Http500 => 500,
        }
    }

    #[verifier::when_used_as_spec(spec_from_status)]
    pub fn from_status(status: u16) -> (out: Option<DownloadRequestError>)
        ensures
            out == DownloadRequestError::spec_from_status(status),
    {
        if status == 401 {
            Some(DownloadRequestError::Http401)
        } else if status == 403 {
            Some(DownloadRequestError::Http403)
        } else if status == 429 {
            Some(DownloadRequestError::Http429)
        } else if status == 500 {
            Some(DownloadRequestError::Http500)
        } else {
            None
        }
    }

    /// What the refusal says to a reader.
    pub fn to_string(&self) -> (out: String)
        ensures
            out@ == self.shown(),
    {
        match self {
            DownloadRequestError::Http401 => "PIN required / Invalid PIN".to_string(),
            DownloadRequestError::Http403 => "Rejected".to_string(),
            DownloadRequestError::Http429 => "Too many requests".to_string(),
            DownloadRequestError::Http500 => "Unknown error by sender".to_string(),
        }
    }

    /// A refusal is the one that its status stands for.
    pub proof fn lemma_status_read_back(self)
        ensures
            DownloadRequestError::spec_from_status(self.spec_status()) == Some(self),
    {
    }
}

/// Why a receiver did not take the list of files that a sender offered it.
#[derive(Debug, Clone, Copy, PartialEq, Eq, Structural)]
pub enum UploadRequestError {
    /// 204: nothing needs to be sent.
    Http204,
    /// 400: the request was malformed.
    Http400,
    /// 401: a PIN is wanted, or the PIN was wrong.
    Http401,
    /// 403: the receiver said no.
    Http403,
    /// 409: another session is under way.
    Http409,
    /// 429: too many requests.
    Http429,
    /// 500: the receiver failed.
    Http500,
}

impl UploadRequestError {
    /// The status that stands for the refusal.
    pub open spec fn spec_status(self) -> u16 {
        match self {
            UploadRequestError::Http204 => 204,
            UploadRequestError::Http400 => 400,
            UploadRequestError::Http401 => 401,
            UploadRequestError::Http403 => 403,
            UploadRequestError::Http409 => 409,
            UploadRequestError::Http429 => 429,
            UploadRequestError::Http500 => 500,
        }
    }

    /// The refusal that a status stands for, if it stands for one.
    pub open spec fn spec_from_status(status: u16) -> Option<UploadRequestError> {
        if status == 204 {
            Some(UploadRequestError::Http204)
        } else if status == 400 {
            Some(UploadRequestError::Http400)
        } else if status == 401 {
            Some(UploadRequestError::Http401)
        } else if status == 403 {
            Some(UploadRequestError::Http403)
        } else if status == 409 {
            Some(UploadRequestError::Http409)
        } else if status == 429 {
            Some(UploadRequestError::Http429)
        } else if status == 500 {
            Some(UploadRequestError::Http500)
        } else {
            None
        }
    }

    /// What the refusal says to a reader.
    pub open spec fn shown(self) -> Seq<char> {
        match self {
            UploadRequestError::Http204 => "Finished (No file transfer needed)"@,
            UploadRequestError::Http400 => "Invalid body"@,
            UploadRequestError::Http401 => "PIN required / Invalid PIN"@,
            UploadRequestError::Http403 => "Rejected"@,
            UploadRequestError::Http409 => "Blocked by another session"@,
            UploadRequestError::Http429 => "Too many requests"@,
            UploadRequestError::Http500 => "Unknown error by receiver"@,
        }
    }

    #[verifier::when_used_as_spec(spec_status)]
    pub fn status(self) -> (out: u16)
        ensures
            out == self.spec_status(),
    {
        match self {
            UploadRequestError::Http204 => 204,
            UploadRequestError::Http400 => 400,
            UploadRequestError::Http401 => 401,
            UploadRequestError::Http403 => 403,
            UploadRequestError::Http409 => 409,
            UploadRequestError::Http429 => 429,
            UploadRequestError::Http500 => 500,
        }
    }

    #[verifier::when_used_as_spec(spec_from_status)]
    pub fn from_status(status: u16) -> (out: Option<UploadRequestError>)
        ensures
            out == UploadRequestError::spec_from_status(status),
    {
        if status == 204 {
            Some(UploadRequestError::Http204)
        } else if status == 400 {
            Some(UploadRequestError::Http400)
        } else if status == 401 {
            Some(UploadRequestError::Http401)
        } else if status == 403 {
            Some(UploadRequestError::Http403)
        } else if status == 409 {
            Some(UploadRequestError::Http409)
        } else if status == 429 {
            Some(UploadRequestError::Http429)
        } else if status == 500 {
            Some(UploadRequestError::Http500)
        } else {
            None
        }
    }

    /// What the refusal says to a reader.
    pub fn to_string(&self) -> (out: String)
        ensures
            out@ == self.shown(),
    {
        match self {
            UploadRequestError::Http204 => "Finished (No file transfer needed)".to_string(),
            UploadRequestError::Http400 => "Invalid body".to_string(),
            UploadRequestError::Http401 => "PIN required / Invalid PIN".to_string(),
            UploadRequestError::Http403 => "Rejected".to_string(),
            UploadRequestError::Http409 => "Blocked by another session".to_string(),
            UploadRequestError::Http429 => "Too many requests".to_string(),
            UploadRequestError::Http500 => "Unknown error by receiver".to_string(),
        }
    }

    /// A refusal is the one that its status stands for.
    pub proof fn lemma_status_read_back(self)
        ensures
            UploadRequestError::spec_from_status(self.spec_status()) == Some(self),
    {
    }
}

/// Why a receiver did not take a file.
#[derive(Debug, Clone, Copy, PartialEq, Eq, Structural)]
pub enum UploadError {
    /// 400: the request lacked a parameter.
    Http400,
    /// 403: the token or the address was wrong.
    Http403,
    /// 409: another session is under way.
    Http409,
    /// 500: the receiver failed.
    Http500,
}

impl UploadError {
    /// The status that stands for the refusal.
    pub open spec fn spec_status(self) -> u16 {
        match self {
            UploadError::Http400 => 400,
            UploadError::Http403 => 403,
            UploadError::Http409 => 409,
            UploadError::Http500 => 500,
        }
    }

    /// The refusal that a status stands for, if it stands for one.
    pub open spec fn spec_from_status(status: u16) -> Option<UploadError> {
        if status == 400 {
            Some(UploadError::Http400)
        } else if status == 403 {
            Some(UploadError::Http403)
        } else if status == 409 {
            Some(UploadError::Http409)
        } else if status == 500 {
            Some(UploadError::Http500)
        } else {
            None
        }
    }

    /// What the refusal says to a reader.
    pub open spec fn shown(self) -> Seq<char> {
        match self {
            UploadError::Http400 => "Missing parameters"@,
            UploadError::Http403 => "Invalid token or IP address"@,
            UploadError::Http409 => "Blocked by another session"@,
            UploadError::Http500 => "Unknown error by receiver"@,
        }
    }

    #[verifier::when_used_as_spec(spec_status)]
    pub fn status(self) -> (out: u16)
        ensures
            out == self.spec_status(),
    {
        match self {
            UploadError::Http400 => 400,
            UploadError::Http403 => 403,
            UploadError::Http409 => 409,
            UploadError::Http500 => 500,
        }
    }

    #[verifier::when_used_as_spec(spec_from_status)]
    pub fn from_status(status: u16) -> (out: Option<UploadError>)
        ensures
            out == UploadError::spec_from_status(status),
    {
        if status == 400 {
            Some(UploadError::Http400)
        } else if status == 403 {
            Some(UploadError::Http403)
        } else if status == 409 {
            Some(UploadError::Http409)
        } else if status == 500 {
            Some(UploadError::Http500)
        } else {
            None
        }
    }

    /// What the refusal says to a reader.
    pub fn to_string(&self) -> (out: String)
        ensures
            out@ == self.shown(),
    {
        match self {
            UploadError::Http400 => "Missing parameters".to_string(),
            UploadError::Http403 => "Invalid token or IP address".to_string(),
            UploadError::Http409 => "Blocked by another session".to_string(),
            UploadError::Http500 => "Unknown error by receiver".to_string(),
        }
    }

    /// A refusal is the one that its status stands for.
    pub proof fn lemma_status_read_back(self)
        ensures
            UploadError::spec_from_status(self.spec_status()) == Some(self),
    {
    }
}

} // verus!
