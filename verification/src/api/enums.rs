//! The enumerations of the protocol. On the wire each is a small integer.

use crate::json::{Json, JsonNumber, JsonValue};
use crate::wire::{integer_between, integer_value, read_integer, FromJson, ToJson};
use vstd::prelude::*;

verus! {

/// The bandwidth priority of a torrent or of a file.
#[derive(Debug, Clone, Copy, PartialEq, Eq, Structural)]
pub enum Priority {
    Low,
    Normal,
    High,
}

impl DeepView for Priority {
    type V = Priority;

    open spec fn deep_view(&self) -> Priority {
        *self
    }
}

impl Priority {
    /// The number that stands for a value on the wire.
    pub open spec fn code_of(self) -> int {
        match self {
            Priority::Low => -1,
            Priority::Normal => 0,
            Priority::High => 1,
        }
    }

    /// The value that a number stands for, if it stands for one.
    pub open spec fn of_code(code: int) -> Option<Priority> {
        if code == -1 {
            Some(Priority::Low)
        } else if code == 0 {
            Some(Priority::Normal)
        } else if code == 1 {
            Some(Priority::High)
        } else {
            None
        }
    }

    /// The number that stands for the value on the wire.
    pub fn code(&self) -> (r: i8)
        ensures
            r == self.code_of(),
    {
        match self {
            Priority::Low => -1,
            Priority::Normal => 0,
            Priority::High => 1,
        }
    }

    /// The value that a number stands for, if it stands for one.
    pub fn from_code(code: i8) -> (r: Option<Priority>)
        ensures
            r == Self::of_code(code as int),
    {
        if code == -1 {
            Some(Priority::Low)
        } else if code == 0 {
            Some(Priority::Normal)
        } else if code == 1 {
            Some(Priority::High)
        } else {
            None
        }
    }
}

impl FromJson for Priority {
    open spec fn decoded(value: JsonValue) -> Option<Priority> {
        match integer_between(value, i8::MIN as int, i8::MAX as int) {
            Some(code) => Self::of_code(code),
            None => None,
        }
    }

    fn from_json(json: &Json) -> (r: Option<Priority>) {
        match read_integer(json, i8::MIN as i128, i8::MAX as i128) {
            Some(code) => Self::from_code(code as i8),
            None => None,
        }
    }
}

impl ToJson for Priority {
    open spec fn encoded(value: Priority) -> JsonValue {
        integer_value(value.code_of())
    }

    fn to_json(&self) -> (r: Json) {
        Json::Number(JsonNumber::Signed(self.code() as i64))
    }
}

/// Which limit on idle seeding a torrent follows.
#[derive(Debug, Clone, Copy, PartialEq, Eq, Structural)]
pub enum IdleLimit {
    /// follow the global settings
    Global,
    /// override the global settings, seeding until a certain idle time
    Single,
    /// override the global settings, seeding regardless of activity
    Unlimited,
}

impl DeepView for IdleLimit {
    type V = IdleLimit;

    open spec fn deep_view(&self) -> IdleLimit {
        *self
    }
}

impl IdleLimit {
    /// The number that stands for a value on the wire.
    pub open spec fn code_of(self) -> int {
        match self {
            IdleLimit::Global => 0,
            IdleLimit::Single => 1,
            IdleLimit::Unlimited => 2,
        }
    }

    /// The value that a number stands for, if it stands for one.
    pub open spec fn of_code(code: int) -> Option<IdleLimit> {
        if code == 0 {
            Some(IdleLimit::Global)
        } else if code == 1 {
            Some(IdleLimit::Single)
        } else if code == 2 {
            Some(IdleLimit::Unlimited)
        } else {
            None
        }
    }

    /// The number that stands for the value on the wire.
    pub fn code(&self) -> (r: u8)
        ensures
            r == self.code_of(),
    {
        match self {
            IdleLimit::Global => 0,
            IdleLimit::Single => 1,
            IdleLimit::Unlimited => 2,
        }
    }

    /// The value that a number stands for, if it stands for one.
    pub fn from_code(code: u8) -> (r: Option<IdleLimit>)
        ensures
            r == Self::of_code(code as int),
    {
        if code == 0 {
            Some(IdleLimit::Global)
        } else if code == 1 {
            Some(IdleLimit::Single)
        } else if code == 2 {
            Some(IdleLimit::Unlimited)
        } else {
            None
        }
    }
}

impl FromJson for IdleLimit {
    open spec fn decoded(value: JsonValue) -> Option<IdleLimit> {
        match integer_between(value, u8::MIN as int, u8::MAX as int) {
            Some(code) => Self::of_code(code),
            None => None,
        }
    }

    fn from_json(json: &Json) -> (r: Option<IdleLimit>) {
        match read_integer(json, u8::MIN as i128, u8::MAX as i128) {
            Some(code) => Self::from_code(code as u8),
            None => None,
        }
    }
}

impl ToJson for IdleLimit {
    open spec fn encoded(value: IdleLimit) -> JsonValue {
        integer_value(value.code_of())
    }

    fn to_json(&self) -> (r: Json) {
        Json::Number(JsonNumber::Unsigned(self.code() as u64))
    }
}

/// Which limit on the seeding ratio a torrent follows.
#[derive(Debug, Clone, Copy, PartialEq, Eq, Structural)]
pub enum RatioLimit {
    /// follow the global settings
    Global,
    /// override the global settings, seeding until a certain ratio
    Single,
    /// override the global settings, seeding regardless of activity
    Unlimited,
}

impl DeepView for RatioLimit {
    type V = RatioLimit;

    open spec fn deep_view(&self) -> RatioLimit {
        *self
    }
}

impl RatioLimit {
    /// The number that stands for a value on the wire.
    pub open spec fn code_of(self) -> int {
        match self {
            RatioLimit::Global => 0,
            RatioLimit::Single => 1,
            RatioLimit::Unlimited => 2,
        }
    }

    /// The value that a number stands for, if it stands for one.
    pub open spec fn of_code(code: int) -> Option<RatioLimit> {
        if code == 0 {
            Some(RatioLimit::Global)
        } else if code == 1 {
            Some(RatioLimit::Single)
        } else if code == 2 {
            Some(RatioLimit::Unlimited)
        } else {
            None
        }
    }

    /// The number that stands for the value on the wire.
    pub fn code(&self) -> (r: u8)
        ensures
            r == self.code_of(),
    {
        match self {
            RatioLimit::Global => 0,
            RatioLimit::Single => 1,
            RatioLimit::Unlimited => 2,
        }
    }

    /// The value that a number stands for, if it stands for one.
    pub fn from_code(code: u8) -> (r: Option<RatioLimit>)
        ensures
            r == Self::of_code(code as int),
    {
        if code == 0 {
            Some(RatioLimit::Global)
        } else if code == 1 {
            Some(RatioLimit::Single)
        } else if code == 2 {
            Some(RatioLimit::Unlimited)
        } else {
            None
        }
    }
}

impl FromJson for RatioLimit {
    open spec fn decoded(value: JsonValue) -> Option<RatioLimit> {
        match integer_between(value, u8::MIN as int, u8::MAX as int) {
            Some(code) => Self::of_code(code),
            None => None,
        }
    }

    fn from_json(json: &Json) -> (r: Option<RatioLimit>) {
        match read_integer(json, u8::MIN as i128, u8::MAX as i128) {
            Some(code) => Self::from_code(code as u8),
            None => None,
        }
    }
}

impl ToJson for RatioLimit {
    open spec fn encoded(value: RatioLimit) -> JsonValue {
        integer_value(value.code_of())
    }

    fn to_json(&self) -> (r: Json) {
        Json::Number(JsonNumber::Unsigned(self.code() as u64))
    }
}

/// What a torrent is doing.
#[derive(Debug, Clone, Copy, Hash, PartialEq, Eq, Structural)]
pub enum Status {
    /// Torrent is stopped
    Stopped,
    /// Queued to check files
    CheckWait,
    /// Checking files
    Check,
    /// Queued to download
    DownloadWait,
    /// Downloading
    Download,
    /// Queued to seed
    SeedWait,
    /// Seeding
    Seed,
}

impl DeepView for Status {
    type V = Status;

    open spec fn deep_view(&self) -> Status {
        *self
    }
}

impl Status {
    /// The number that stands for a value on the wire.
    pub open spec fn code_of(self) -> int {
        match self {
            Status::Stopped => 0,
            Status::CheckWait => 1,
            Status::Check => 2,
            Status::DownloadWait => 3,
            Status::Download => 4,
            Status::SeedWait => 5,
            Status::Seed => 6,
        }
    }

    /// The value that a number stands for, if it stands for one.
    pub open spec fn of_code(code: int) -> Option<Status> {
        if code == 0 {
            Some(Status::Stopped)
        } else if code == 1 {
            Some(Status::CheckWait)
        } else if code == 2 {
            Some(Status::Check)
        } else if code == 3 {
            Some(Status::DownloadWait)
        } else if code == 4 {
            Some(Status::Download)
        } else if code == 5 {
            Some(Status::SeedWait)
        } else if code == 6 {
            Some(Status::Seed)
        } else {
            None
        }
    }

    /// The number that stands for the value on the wire.
    pub fn code(&self) -> (r: u8)
        ensures
            r == self.code_of(),
    {
        match self {
            Status::Stopped => 0,
            Status::CheckWait => 1,
            Status::Check => 2,
            Status::DownloadWait => 3,
            Status::Download => 4,
            Status::SeedWait => 5,
            Status::Seed => 6,
        }
    }

    /// The value that a number stands for, if it stands for one.
    pub fn from_code(code: u8) -> (r: Option<Status>)
        ensures
            r == Self::of_code(code as int),
    {
        if code == 0 {
            Some(Status::Stopped)
        } else if code == 1 {
            Some(Status::CheckWait)
        } else if code == 2 {
            Some(Status::Check)
        } else if code == 3 {
            Some(Status::DownloadWait)
        } else if code == 4 {
            Some(Status::Download)
        } else if code == 5 {
            Some(Status::SeedWait)
        } else if code == 6 {
            Some(Status::Seed)
        } else {
            None
        }
    }
}

impl FromJson for Status {
    open spec fn decoded(value: JsonValue) -> Option<Status> {
        match integer_between(value, u8::MIN as int, u8::MAX as int) {
            Some(code) => Self::of_code(code),
            None => None,
        }
    }

    fn from_json(json: &Json) -> (r: Option<Status>) {
        match read_integer(json, u8::MIN as i128, u8::MAX as i128) {
            Some(code) => Self::from_code(code as u8),
            None => None,
        }
    }
}

/// What the announce or scrape of a tracker is doing.
#[derive(Debug, Clone, Copy, PartialEq, Eq, Structural)]
pub enum TrackerState {
    /// we won't (announce,scrape) this torrent to this tracker because
    /// the torrent is stopped, or because of an error, or whatever
    Inactive,
    /// we will (announce,scrape) this torrent to this tracker, and are
    /// waiting for enough time to pass to satisfy the tracker's interval
    Waiting,
    /// it's time to (announce,scrape) this torrent, and we're waiting on a
    /// free slot to open up in the announce manager
    Queued,
    /// we're (announcing,scraping) this torrent right now
    Active,
}

impl DeepView for TrackerState {
    type V = TrackerState;

    open spec fn deep_view(&self) -> TrackerState {
        *self
    }
}

impl TrackerState {
    /// The number that stands for a value on the wire.
    pub open spec fn code_of(self) -> int {
        match self {
            TrackerState::Inactive => 0,
            TrackerState::Waiting => 1,
            TrackerState::Queued => 2,
            TrackerState::Active => 3,
        }
    }

    /// The value that a number stands for, if it stands for one.
    pub open spec fn of_code(code: int) -> Option<TrackerState> {
        if code == 0 {
            Some(TrackerState::Inactive)
        } else if code == 1 {
            Some(TrackerState::Waiting)
        } else if code == 2 {
            Some(TrackerState::Queued)
        } else if code == 3 {
            Some(TrackerState::Active)
        } else {
            None
        }
    }

    /// The number that stands for the value on the wire.
    pub fn code(&self) -> (r: u8)
        ensures
            r == self.code_of(),
    {
        match self {
            TrackerState::Inactive => 0,
            TrackerState::Waiting => 1,
            TrackerState::Queued => 2,
            TrackerState::Active => 3,
        }
    }

    /// The value that a number stands for, if it stands for one.
    pub fn from_code(code: u8) -> (r: Option<TrackerState>)
        ensures
            r == Self::of_code(code as int),
    {
        if code == 0 {
            Some(TrackerState::Inactive)
        } else if code == 1 {
            Some(TrackerState::Waiting)
        } else if code == 2 {
            Some(TrackerState::Queued)
        } else if code == 3 {
            Some(TrackerState::Active)
        } else {
            None
        }
    }
}

impl FromJson for TrackerState {
    open spec fn decoded(value: JsonValue) -> Option<TrackerState> {
        match integer_between(value, u8::MIN as int, u8::MAX as int) {
            Some(code) => Self::of_code(code),
            None => None,
        }
    }

    fn from_json(json: &Json) -> (r: Option<TrackerState>) {
        match read_integer(json, u8::MIN as i128, u8::MAX as i128) {
            Some(code) => Self::from_code(code as u8),
            None => None,
        }
    }
}

/// What kind of text the error string of a torrent holds.
#[derive(Debug, Clone, Copy, PartialEq, Eq, Structural)]
pub enum StatErrType {
    /// everything's fine
    NoError,
    /// when we announced to the tracker, we got a warning in the response
    TrackerWarning,
    /// when we announced to the tracker, we got an error in the response
    TrackerError,
    /// local trouble, such as disk full or permissions error
    LocalError,
    /// Unknown error
    Unknown,
}

impl DeepView for StatErrType {
    type V = StatErrType;

    open spec fn deep_view(&self) -> StatErrType {
        *self
    }
}

impl Default for StatErrType {
    fn default() -> (r: Self)
        ensures
            r == StatErrType::Unknown,
    {
        StatErrType::Unknown
    }
}

impl StatErrType {
    /// The value that a number stands for. A number that the protocol does
    /// not name stands for an unknown error.
    pub open spec fn of_code(code: int) -> StatErrType {
        if code == 0 {
            StatErrType::NoError
        } else if code == 1 {
            StatErrType::TrackerWarning
        } else if code == 2 {
            StatErrType::TrackerError
        } else if code == 3 {
            StatErrType::LocalError
        } else {
            StatErrType::Unknown
        }
    }

    /// The value that a number stands for.
    pub fn from_code(code: i8) -> (r: StatErrType)
        ensures
            r == Self::of_code(code as int),
    {
        if code == 0 {
            StatErrType::NoError
        } else if code == 1 {
            StatErrType::TrackerWarning
        } else if code == 2 {
            StatErrType::TrackerError
        } else if code == 3 {
            StatErrType::LocalError
        } else {
            StatErrType::Unknown
        }
    }
}

impl FromJson for StatErrType {
    open spec fn decoded(value: JsonValue) -> Option<StatErrType> {
        match integer_between(value, i8::MIN as int, i8::MAX as int) {
            Some(code) => Some(Self::of_code(code)),
            None => None,
        }
    }

    fn from_json(json: &Json) -> (r: Option<StatErrType>) {
        match read_integer(json, i8::MIN as i128, i8::MAX as i128) {
            Some(code) => Some(Self::from_code(code as i8)),
            None => None,
        }
    }
}

impl Status {
    /// Every status, in the order of the protocol's numbers.
    pub open spec fn all() -> Seq<Status> {
        seq![
            Status::Stopped,
            Status::CheckWait,
            Status::Check,
            Status::DownloadWait,
            Status::Download,
            Status::SeedWait,
            Status::Seed,
        ]
    }

    /// The name under which a status is counted.
    pub open spec fn label(self) -> Seq<char> {
        match self {
            Status::Stopped => "stopped"@,
            Status::CheckWait => "check-wait"@,
            Status::Check => "check"@,
            Status::DownloadWait => "download-wait"@,
            Status::Download => "download"@,
            Status::SeedWait => "seed-wait"@,
            Status::Seed => "seed"@,
        }
    }

    /// Every status, in the order of the protocol's numbers.
    pub fn iterator() -> (r: Vec<Status>)
        ensures
            r@ == Self::all(),
    {
        let all = vec![
            Status::Stopped,
            Status::CheckWait,
            Status::Check,
            Status::DownloadWait,
            Status::Download,
            Status::SeedWait,
            Status::Seed,
        ];
        assert(all@ =~= Self::all());
        all
    }

    /// The name under which a status is counted.
    pub fn to_string(&self) -> (r: String)
        ensures
            r@ == self.label(),
    {
        match self {
            Status::Stopped => "stopped".to_owned(),
            Status::CheckWait => "check-wait".to_owned(),
            Status::Check => "check".to_owned(),
            Status::DownloadWait => "download-wait".to_owned(),
            Status::Download => "download".to_owned(),
            Status::SeedWait => "seed-wait".to_owned(),
            Status::Seed => "seed".to_owned(),
        }
    }

    /// The status at a place in [`Status::all`] is the one with that number.
    pub proof fn all_in_code_order()
        ensures
            Self::all().len() == 7,
            forall|i: int| 0 <= i < 7 ==> (#[trigger] Self::all()[i]).code_of() == i,
            forall|s: Status| 0 <= s.code_of() < 7 && Self::all()[s.code_of()] == s,
    {
    }
}

} // verus!
