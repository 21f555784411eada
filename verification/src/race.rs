//! Two signups for one username that run at the same time against one
//! store, their steps interleaved in any order.

use vstd::prelude::*;

use crate::hashing::HashingFailure;
use crate::http::Status;
use crate::model::{serve, World};
use crate::provisioning::{create_role_text, grant_text};
use crate::signup::{signup_step, Event, Request, SignupState};

verus! {

/// What one of the two clients sent, and the hash that its password was
/// given.
pub ghost struct Entrant {
    pub password: Seq<char>,
    pub encoded: Seq<char>,
}

/// A signup under way: its state, and what it last asked for.
pub ghost struct Session {
    pub state: SignupState,
    pub pending: Request,
}

/// The store and the two signups.
pub ghost struct Race {
    pub world: World,
    pub first: Session,
    pub second: Session,
}

/// A signup after its first step.
pub open spec fn arrive(username: Seq<char>, entrant: Entrant) -> Session {
    let (state, pending) = signup_step(
        SignupState::Start,
        username,
        entrant.password,
        Event::Begin,
        Ok(entrant.encoded),
    );
    Session { state, pending }
}

/// Both signups have arrived and nothing has been asked of the store.
pub open spec fn race_start(
    world: World,
    username: Seq<char>,
    first: Entrant,
    second: Entrant,
) -> Race {
    Race { world, first: arrive(username, first), second: arrive(username, second) }
}

/// One signup moves: the store serves what it had asked for, and it takes
/// its next step. A signup that has responded stays as it is.
pub open spec fn session_move(
    world: World,
    session: Session,
    username: Seq<char>,
    entrant: Entrant,
) -> (World, Session) {
    if session.pending is Respond {
        (world, session)
    } else {
        let (served, answer) = serve(world, session.pending);
        let (state, pending) = signup_step(
            session.state,
            username,
            entrant.password,
            answer,
            Ok(entrant.encoded),
        );
        (served, Session { state, pending })
    }
}

/// One move of the race, by the first signup or by the second.
pub open spec fn race_move(
    race: Race,
    username: Seq<char>,
    first: Entrant,
    second: Entrant,
    first_moves: bool,
) -> Race {
    if first_moves {
        let (world, session) = session_move(race.world, race.first, username, first);
        Race { world, first: session, second: race.second }
    } else {
        let (world, session) = session_move(race.world, race.second, username, second);
        Race { world, first: race.first, second: session }
    }
}

/// The race after the moves of `schedule`, in which `true` lets the first
/// signup move and `false` the second.
pub open spec fn race_run(
    race: Race,
    username: Seq<char>,
    first: Entrant,
    second: Entrant,
    schedule: Seq<bool>,
) -> Race
    decreases schedule.len(),
{
    if schedule.len() == 0 {
        race
    } else {
        race_move(
            race_run(race, username, first, second, schedule.drop_last()),
            username,
            first,
            second,
            schedule.last(),
        )
    }
}

/// The signup is over, and answered with success.
pub open spec fn won(session: Session, username: Seq<char>) -> bool {
    session.pending == Request::Respond(Ok(username))
}

/// The signup is over, and answered that the username is taken.
pub open spec fn lost(session: Session) -> bool {
    session.pending == Request::Respond(Err(Status::Conflict))
}

/// The signup has written the account's row.
pub open spec fn holds_row(session: Session) -> bool {
    session.state == SignupState::CreatingRole || session.state == SignupState::GrantingRole || (
    session.state == SignupState::Finished && session.pending is Respond
        && session.pending->Respond_0 is Ok)
}

/// The statements that a signup has had run so far.
pub open spec fn statements_run(session: Session, username: Seq<char>, entrant: Entrant) -> Seq<
    Seq<char>,
> {
    if session.state == SignupState::GrantingRole {
        seq![create_role_text(username, entrant.password)]
    } else if session.state == SignupState::Finished && session.pending is Respond
        && session.pending->Respond_0 is Ok {
        seq![create_role_text(username, entrant.password), grant_text(username)]
    } else {
        Seq::empty()
    }
}

/// A signup is at one of the places that a working store can bring it to,
/// asking for what that place asks.
pub open spec fn on_course(session: Session, username: Seq<char>, entrant: Entrant) -> bool {
    match session.state {
        SignupState::Start => false,
        SignupState::FindingUser => session.pending == Request::FindUser { username },
        SignupState::InsertingUser => session.pending == Request::InsertUser {
            username,
            password: entrant.encoded,
        },
        SignupState::CreatingRole => session.pending == Request::Execute {
            statement: create_role_text(username, entrant.password),
        },
        SignupState::GrantingRole => session.pending == Request::Execute {
            statement: grant_text(username),
        },
        SignupState::Finished => won(session, username) || lost(session),
    }
}

/// What holds of the race at every moment: at most one signup has written
/// the row; the table has a row for the username exactly if one has; a
/// signup was told of a conflict only while the row was there; and the
/// statements that were run are those of the signup that wrote the row.
pub open spec fn consistent(
    race: Race,
    before: World,
    username: Seq<char>,
    first: Entrant,
    second: Entrant,
) -> bool {
    &&& on_course(race.first, username, first)
    &&& on_course(race.second, username, second)
    &&& !(holds_row(race.first) && holds_row(race.second))
    &&& race.world.rows.contains_key(username) == (holds_row(race.first) || holds_row(
        race.second,
    ))
    &&& lost(race.first) || lost(race.second) ==> race.world.rows.contains_key(username)
    &&& race.world.statements =~= before.statements + (if holds_row(race.first) {
        statements_run(race.first, username, first)
    } else {
        statements_run(race.second, username, second)
    })
}

/// A move keeps the race consistent.
pub proof fn move_keeps_consistent(
    race: Race,
    before: World,
    username: Seq<char>,
    first: Entrant,
    second: Entrant,
    first_moves: bool,
)
    requires
        consistent(race, before, username, first, second),
    ensures
        consistent(
            race_move(race, username, first, second, first_moves),
            before,
            username,
            first,
            second,
        ),
{
}

/// The race is consistent after any schedule.
pub proof fn run_keeps_consistent(
    before: World,
    username: Seq<char>,
    first: Entrant,
    second: Entrant,
    schedule: Seq<bool>,
)
    requires
        consistent(race_start(before, username, first, second), before, username, first, second),
    ensures
        consistent(
            race_run(race_start(before, username, first, second), username, first, second, schedule),
            before,
            username,
            first,
            second,
        ),
    decreases schedule.len(),
{
    if schedule.len() > 0 {
        run_keeps_consistent(before, username, first, second, schedule.drop_last());
        move_keeps_consistent(
            race_run(
                race_start(before, username, first, second),
                username,
                first,
                second,
                schedule.drop_last(),
            ),
            before,
            username,
            first,
            second,
            schedule.last(),
        );
    }
}

} // verus!
