//! A model of the store and the database as a signup and a login see them
//! while both work: the user table with its unique key, and the
//! administrative statements that were run. What the flows guarantee is
//! stated against it.

use vstd::prelude::*;

use crate::credentials::Account;
use crate::hashing::HashingFailure;
use crate::signup::{signup_step, Event, Request, SignupState};
use crate::store::StoreError;

verus! {

/// The user table and the statements that were run, oldest first.
pub ghost struct World {
    pub rows: Map<Seq<char>, Seq<char>>,
    pub statements: Seq<Seq<char>>,
}

/// What a working store answers to a lookup.
pub open spec fn lookup(world: World, username: Seq<char>) -> Result<Option<Account>, StoreError> {
    if world.rows.contains_key(username) {
        Ok(Some(Account { username, password: world.rows[username] }))
    } else {
        Ok(None)
    }
}

/// What a working store and database do with a request, and what they
/// answer: a lookup reads the table; a write adds the row unless the username
/// has one, in which case the unique key refuses it; a statement is run. A
/// response is not theirs to serve and changes nothing.
pub open spec fn serve(world: World, request: Request) -> (World, Event) {
    match request {
        Request::FindUser { username } => (
            world,
            match lookup(world, username) {
                Ok(found) => Event::Found(found),
                Err(e) => Event::Failed(e),
            },
        ),
        Request::InsertUser { username, password } => if world.rows.contains_key(username) {
            (world, Event::Failed(StoreError::Conflict))
        } else {
            (
                World { rows: world.rows.insert(username, password), statements: world.statements },
                Event::Done,
            )
        },
        Request::Execute { statement } => (
            World { rows: world.rows, statements: world.statements.push(statement) },
            Event::Done,
        ),
        Request::Respond(_) => (world, Event::Done),
    }
}

/// A signup driven against a working store from the given state and event,
/// for at most `steps` further requests: the world it leaves, and the last
/// action, which is the response once the flow has ended.
pub open spec fn drive(
    world: World,
    state: SignupState,
    username: Seq<char>,
    password: Seq<char>,
    event: Event,
    hashed: Result<Seq<char>, HashingFailure>,
    steps: nat,
) -> (World, Request)
    decreases steps,
{
    let (next, request) = signup_step(state, username, password, event, hashed);
    if request is Respond || steps == 0 {
        (world, request)
    } else {
        let (served, answer) = serve(world, request);
        drive(served, next, username, password, answer, hashed, (steps - 1) as nat)
    }
}

/// A whole signup against a working store: no flow asks more than four
/// things of it.
pub open spec fn signup_run(
    world: World,
    username: Seq<char>,
    password: Seq<char>,
    hashed: Result<Seq<char>, HashingFailure>,
) -> (World, Request) {
    drive(world, SignupState::Start, username, password, Event::Begin, hashed, 4)
}

} // verus!
