//! The resource manager: where sessions come from, and where the resources of the system
//! are looked up. Like a session it makes no transport call itself: it says what the
//! transport is to be asked, and decides what the answers mean.
use crate::error::{classify, CompletionCode, Error};
use crate::session::Session;
use crate::utility::{buffer_text, stringify_buffer, AccessMode, Timeout};
use vstd::prelude::*;
use vstd::string::*;
use vstd::utf8::encode_utf8;

verus! {

/// The size of the buffer into which the transport writes one resource description.
pub const VI_FIND_BUFLEN: usize = 256;

/// The default resource manager of the system, known by its handle.
#[derive(Debug, PartialEq, Eq)]
pub struct ResourceManager {
    value: u32,
}

impl View for ResourceManager {
    type V = u32;

    closed spec fn view(&self) -> u32 {
        self.value
    }
}

/// A request to open a session. The resource name ends with a zero byte, as the
/// transport expects it.
#[derive(Debug, PartialEq, Eq)]
pub struct OpenRequest {
    pub manager: u32,
    pub resource_name: Vec<u8>,
    pub access_mode: u32,
    pub timeout: u32,
}

/// An open request as the contracts speak of it.
pub struct OpenRequestView {
    pub manager: u32,
    pub resource_name: Seq<u8>,
    pub access_mode: u32,
    pub timeout: u32,
}

impl View for OpenRequest {
    type V = OpenRequestView;

    open spec fn view(&self) -> OpenRequestView {
        OpenRequestView {
            manager: self.manager,
            resource_name: self.resource_name@,
            access_mode: self.access_mode,
            timeout: self.timeout,
        }
    }
}

/// A request to look resources up. The expression ends with a zero byte, as the
/// transport expects it.
#[derive(Debug, PartialEq, Eq)]
pub struct FindRequest {
    pub manager: u32,
    pub expression: Vec<u8>,
}

/// A find request as the contracts speak of it.
pub struct FindRequestView {
    pub manager: u32,
    pub expression: Seq<u8>,
}

impl View for FindRequest {
    type V = FindRequestView;

    open spec fn view(&self) -> FindRequestView {
        FindRequestView { manager: self.manager, expression: self.expression@ }
    }
}

/// Whether a text holds a zero byte, which no string handed to the transport may hold
/// before its end.
pub open spec fn has_nul(text: Seq<char>) -> bool {
    encode_utf8(text).contains(0u8)
}

/// A text as the transport takes it: its bytes and a zero byte after them.
pub open spec fn zero_terminated(text: Seq<char>) -> Seq<u8> {
    encode_utf8(text).push(0u8)
}

/// The bytes of a text with a zero byte after them, if the text itself holds none.
fn to_zero_terminated(text: &str) -> (r: Option<Vec<u8>>)
    ensures
        match r {
            Some(bytes) => !has_nul(text@) && bytes@ == zero_terminated(text@),
            None => has_nul(text@),
        },
{
    let mut bytes = text.as_bytes_vec();
    let mut i: usize = 0;
    while i < bytes.len()
        invariant
            i <= bytes@.len(),
            bytes@ == encode_utf8(text@),
            forall|k: int| 0 <= k < i ==> bytes@[k] != 0,
        decreases bytes@.len() - i,
    {
        if bytes[i] == 0 {
            return None;
        }
        i += 1;
    }
    bytes.push(0);
    Some(bytes)
}

/// A search for resources in progress or at its end.
#[derive(Debug, PartialEq, Eq)]
pub enum Find {
    /// Another description is to be fetched from the list; `remaining` says how many are
    /// still to come, and `resources` holds those found so far.
    Finding { list: u32, remaining: u32, resources: Vec<String> },
    /// The search is complete.
    Done(Vec<String>),
    /// The search has failed.
    Failed(Error),
}

/// A search as the contracts speak of it.
pub enum FindView {
    Finding { list: u32, remaining: u32, resources: Seq<Seq<char>> },
    Done(Seq<Seq<char>>),
    Failed(Error),
}

/// The texts of a list of strings.
pub open spec fn texts(strings: Seq<String>) -> Seq<Seq<char>> {
    strings.map_values(|s: String| s@)
}

impl View for Find {
    type V = FindView;

    open spec fn view(&self) -> FindView {
        match self {
            Find::Finding { list, remaining, resources } => FindView::Finding {
                list: *list,
                remaining: *remaining,
                resources: texts(resources@),
            },
            Find::Done(resources) => FindView::Done(texts(resources@)),
            Find::Failed(error) => FindView::Failed(*error),
        }
    }
}

/// The state of a search after the transport has answered the first call: its status,
/// the handle of the list of matches, their number, and the buffer with the first
/// description. A fatal status fails the search. No match at all is no failure: the
/// search is complete and has found nothing, and the buffer is not looked at. Else the
/// buffer must hold a zero-terminated string, which is the first resource, and one
/// description remains to be fetched for every further match.
pub open spec fn found(status: i32, list: u32, count: u32, description: Seq<u8>) -> FindView {
    match classify(status) {
        Err(error) => FindView::Failed(error),
        Ok(_) => if count < 1 {
            FindView::Done(Seq::empty())
        } else {
            match buffer_text(description) {
                None => FindView::Failed(Error::InvalidNullString),
                Some(resource) => if count == 1 {
                    FindView::Done(seq![resource])
                } else {
                    FindView::Finding {
                        list,
                        remaining: (count - 1) as u32,
                        resources: seq![resource],
                    }
                },
            }
        },
    }
}

impl FindView {
    /// The state after the transport has answered the fetching of the next description
    /// with a status and the buffer. A fatal status fails the search, and so does a
    /// buffer without a zero-terminated string. Else the resource joins those found, in
    /// the order in which the transport names them; the search is complete with the last
    /// one that remained. A search at its end stays as it is.
    pub open spec fn next(self, status: i32, description: Seq<u8>) -> FindView {
        match self {
            FindView::Finding { list, remaining, resources } => match classify(status) {
                Err(error) => FindView::Failed(error),
                Ok(_) => match buffer_text(description) {
                    None => FindView::Failed(Error::InvalidNullString),
                    Some(resource) => if remaining <= 1 {
                        FindView::Done(resources.push(resource))
                    } else {
                        FindView::Finding {
                            list,
                            remaining: (remaining - 1) as u32,
                            resources: resources.push(resource),
                        }
                    },
                },
            },
            _ => self,
        }
    }

    /// How many descriptions are still to be fetched before the search is complete.
    pub open spec fn pending(self) -> nat {
        match self {
            FindView::Finding { remaining, .. } => if remaining < 1 {
                1
            } else {
                remaining as nat
            },
            _ => 0,
        }
    }

    /// The state after the transport's answers to a run of fetches, in their order.
    pub open spec fn run(self, answers: Seq<(i32, Seq<u8>)>) -> FindView
        decreases answers.len(),
    {
        if answers.len() == 0 {
            self
        } else {
            self.run(answers.drop_last()).next(answers.last().0, answers.last().1)
        }
    }
}

/// Whether every one of the answers reports no fatal condition and holds a
/// zero-terminated string.
pub open spec fn all_named(answers: Seq<(i32, Seq<u8>)>) -> bool {
    forall|i: int|
        0 <= i < answers.len() ==> classify((#[trigger] answers[i]).0) is Ok && buffer_text(
            answers[i].1,
        ) is Some
}

/// The resources that a run of answers names, in their order.
pub open spec fn named(answers: Seq<(i32, Seq<u8>)>) -> Seq<Seq<char>> {
    answers.map_values(|answer: (i32, Seq<u8>)| buffer_text(answer.1)->0)
}

impl FindRequest {
    /// Starts the search from the transport's answer to the request.
    pub fn found(&self, status: i32, list: u32, count: u32, description: &[u8]) -> (r: Find)
        ensures
            r@ == found(status, list, count, description@),
    {
        match CompletionCode::try_from(status) {
            Err(error) => Find::Failed(error),
            Ok(_) => {
                let mut resources: Vec<String> = Vec::new();
                assert(texts(resources@) =~= Seq::<Seq<char>>::empty());
                if count < 1 {
                    return Find::Done(resources);
                }
                match stringify_buffer(description) {
                    Err(error) => Find::Failed(error),
                    Ok(resource) => {
                        resources.push(resource);
                        assert(texts(resources@) =~= seq![resource@]);
                        if count == 1 {
                            Find::Done(resources)
                        } else {
                            Find::Finding { list, remaining: count - 1, resources }
                        }
                    },
                }
            },
        }
    }
}

impl Find {
    /// Moves the search on by the transport's answer to the fetching of the next
    /// description.
    pub fn next(self, status: i32, description: &[u8]) -> (r: Find)
        ensures
            r@ == self@.next(status, description@),
    {
        match self {
            Find::Finding { list, remaining, resources } => {
                match CompletionCode::try_from(status) {
                    Err(error) => Find::Failed(error),
                    Ok(_) => match stringify_buffer(description) {
                        Err(error) => Find::Failed(error),
                        Ok(resource) => {
                            let mut resources = resources;
                            let ghost before = resources@;
                            resources.push(resource);
                            assert(texts(resources@) =~= texts(before).push(resource@));
                            if remaining <= 1 {
                                Find::Done(resources)
                            } else {
                                Find::Finding { list, remaining: remaining - 1, resources }
                            }
                        },
                    },
                }
            },
            Find::Done(resources) => Find::Done(resources),
            Find::Failed(error) => Find::Failed(error),
        }
    }

    /// Whether the search has come to its end, so that nothing is to be fetched any more.
    pub fn is_finished(&self) -> (r: bool)
        ensures
            r == !(self@ is Finding),
    {
        match self {
            Find::Finding { .. } => false,
            _ => true,
        }
    }
}

impl OpenRequest {
    /// Decides what the opening has come to, from the transport's answer: its status and
    /// the handle of the new session. Any completion code gives the session, a warning
    /// too; only a fatal status is a failure.
    pub fn complete(&self, status: i32, session: u32) -> (r: Result<Session, Error>)
        ensures
            match classify(status) {
                Ok(_) => r matches Ok(opened) && opened@ == session,
                Err(error) => r == Err::<Session, Error>(error),
            },
    {
        match CompletionCode::try_from(status) {
            Ok(_) => Ok(Session::new(session)),
            Err(error) => Err(error),
        }
    }
}

impl ResourceManager {
    /// The resource manager that the transport has opened, from its answer: the status
    /// and the manager's handle. Only a fatal status is a failure.
    pub fn new(status: i32, session: u32) -> (r: Result<ResourceManager, Error>)
        ensures
            match classify(status) {
                Ok(_) => r matches Ok(manager) && manager@ == session,
                Err(error) => r == Err::<ResourceManager, Error>(error),
            },
    {
        match CompletionCode::try_from(status) {
            Ok(_) => Ok(ResourceManager { value: session }),
            Err(error) => Err(error),
        }
    }

    /// The handle by which the transport knows this resource manager.
    pub fn handle(&self) -> (r: u32)
        ensures
            r == self@,
    {
        self.value
    }

    /// The request that opens a session to the named resource. A name that holds a zero
    /// byte is refused, and after that a custom timeout whose milliseconds do not fit 32
    /// bits.
    pub fn open_session(
        &self,
        resource_name: &str,
        access_mode: AccessMode,
        timeout: Timeout,
    ) -> (r: Result<OpenRequest, Error>)
        ensures
            match r {
                Ok(request) => !has_nul(resource_name@) && timeout.wire() is Ok && request@ == (
                OpenRequestView {
                    manager: self@,
                    resource_name: zero_terminated(resource_name@),
                    access_mode: access_mode.wire(),
                    timeout: timeout.wire()->Ok_0,
                }),
                Err(error) => if has_nul(resource_name@) {
                    error == Error::InvalidResourceName
                } else {
                    timeout.wire() == Err::<u32, Error>(error)
                },
            },
    {
        let resource_name = match to_zero_terminated(resource_name) {
            Some(bytes) => bytes,
            None => {
                return Err(Error::InvalidResourceName);
            },
        };
        let timeout = match u32::try_from(timeout) {
            Ok(value) => value,
            Err(error) => {
                return Err(error);
            },
        };
        Ok(
            OpenRequest {
                manager: self.value,
                resource_name,
                access_mode: u32::from(access_mode),
                timeout,
            },
        )
    }

    /// The request that looks up the resources which match an expression. The expression
    /// is handed to the transport as it is; one that holds a zero byte is refused.
    pub fn find_resources(&self, expression: &str) -> (r: Result<FindRequest, Error>)
        ensures
            match r {
                Ok(request) => !has_nul(expression@) && request@ == (FindRequestView {
                    manager: self@,
                    expression: zero_terminated(expression@),
                }),
                Err(error) => has_nul(expression@) && error == Error::InvalidNullString,
            },
    {
        match to_zero_terminated(expression) {
            Some(bytes) => Ok(FindRequest { manager: self.value, expression: bytes }),
            None => Err(Error::InvalidNullString),
        }
    }
}

/// A search that matches nothing is complete at once, with no resource and nothing to
/// fetch.
pub proof fn lemma_find_nothing(status: i32, list: u32, description: Seq<u8>)
    requires
        classify(status) is Ok,
    ensures
        found(status, list, 0, description) == FindView::Done(Seq::empty()),
        found(status, list, 0, description).pending() == 0,
{
}

/// A search with `count` matches fetches exactly `count - 1` descriptions after the
/// first: that many are pending after the first answer, each answer that names a
/// resource takes one off, and with the last of them the search is complete and holds
/// all the resources in the order in which they were named.
pub proof fn lemma_find_fetches(
    status: i32,
    list: u32,
    count: u32,
    description: Seq<u8>,
    answers: Seq<(i32, Seq<u8>)>,
)
    requires
        classify(status) is Ok,
        count >= 1,
        buffer_text(description) is Some,
        all_named(answers),
        answers.len() <= count - 1,
    ensures
        found(status, list, count, description).run(answers).pending() == count - 1 - answers.len(),
        answers.len() < count - 1 ==> found(status, list, count, description).run(answers)
            == (FindView::Finding {
            list,
            remaining: (count - 1 - answers.len()) as u32,
            resources: seq![buffer_text(description)->0] + named(answers),
        }),
        answers.len() == count - 1 ==> found(status, list, count, description).run(answers)
            == FindView::Done(seq![buffer_text(description)->0] + named(answers)),
    decreases answers.len(),
{
    let first = seq![buffer_text(description)->0];
    if answers.len() == 0 {
        assert(first + named(answers) =~= first);
    } else {
        let before = answers.drop_last();
        lemma_find_fetches(status, list, count, description, before);
        assert(classify(answers[answers.len() - 1].0) is Ok);
        assert(buffer_text(answers[answers.len() - 1].1) is Some);
        assert(first + named(answers) =~= (first + named(before)).push(
            buffer_text(answers.last().1)->0,
        ));
    }
}

} // verus!
