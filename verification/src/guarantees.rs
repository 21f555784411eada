//! What the two flows guarantee, proved of the steps that the library takes.

use vstd::prelude::*;
use vstd::utf8::encode_utf8;

use crate::credentials::{auth_outcome, Account, AuthError};
use crate::hashing::{argon2_verdict, HashingFailure, Verdict};
use crate::http::{Failure, Status};
use crate::login::login_outcome;
use crate::model::{drive, lookup, serve, signup_run, World};
use crate::provisioning::{create_role_text, grant_text};
use crate::race::{
    consistent, lost, race_run, race_start, run_keeps_consistent, won, Entrant,
};
use crate::signup::{signup_step, Event, Request, SignupState};
use crate::validation::email_shaped;

verus! {

/// Two encodings that the hasher returned for one password are both accepted
/// when that password is verified against them, whether or not they are the
/// same text. That the salts, and with them the encodings, differ is a matter
/// of chance and is not stated.
pub proof fn every_hash_of_a_password_verifies(
    first: Seq<char>,
    second: Seq<char>,
    password: Seq<char>,
)
    requires
        argon2_verdict(first, encode_utf8(password)) == Verdict::Match,
        argon2_verdict(second, encode_utf8(password)) == Verdict::Match,
    ensures
        auth_outcome(argon2_verdict(first, encode_utf8(password))) == Ok::<(), AuthError>(()),
        auth_outcome(argon2_verdict(second, encode_utf8(password))) == Ok::<(), AuthError>(()),
{
}

/// A login with a wrong password for an account that exists ends as a login
/// for a username that no account has: in the same failure, with the same
/// response code. The response does not tell whether a username exists.
pub proof fn wrong_password_looks_like_unknown_user(
    account: Account,
    wrong: Seq<char>,
    any: Seq<char>,
)
    requires
        argon2_verdict(account.password, encode_utf8(wrong)) != Verdict::Match,
    ensures
        login_outcome(Ok(Some(account)), wrong) == login_outcome(Ok(None), any),
        login_outcome(Ok(Some(account)), wrong) == Err::<(), Failure>(Failure::Auth),
        Failure::Auth.status() == Status::Unauthorized,
{
}

/// A signup whose username fails the shape rule is refused with
/// `BadRequest` at its first step, before anything is asked of the store or
/// the database: the world is left as it was.
pub proof fn misshaped_username_is_refused_untouched(
    world: World,
    username: Seq<char>,
    password: Seq<char>,
    hashed: Result<Seq<char>, HashingFailure>,
)
    requires
        !email_shaped(encode_utf8(username)),
    ensures
        signup_step(SignupState::Start, username, password, Event::Begin, hashed) == (
            SignupState::Finished,
            Request::Respond(Err(Status::BadRequest)),
        ),
        signup_run(world, username, password, hashed) == (
            world,
            Request::Respond(Err(Status::BadRequest)),
        ),
{
}

/// A signup with a well-shaped username that no account has, whose password
/// was hashed, succeeds against a working store: it answers with the
/// username, leaves the row with the hash in the table, and has run the two
/// statements, in order, and nothing else.
pub proof fn signup_of_free_username_succeeds(
    world: World,
    username: Seq<char>,
    password: Seq<char>,
    encoded: Seq<char>,
)
    requires
        email_shaped(encode_utf8(username)),
        !world.rows.contains_key(username),
    ensures
        signup_run(world, username, password, Ok(encoded)) == (
            World {
                rows: world.rows.insert(username, encoded),
                statements: world.statements.push(create_role_text(username, password)).push(
                    grant_text(username),
                ),
            },
            Request::Respond(Ok(username)),
        ),
{
    let hashed: Result<Seq<char>, HashingFailure> = Ok(encoded);
    let w1 = World { rows: world.rows.insert(username, encoded), statements: world.statements };
    let w2 = World {
        rows: w1.rows,
        statements: w1.statements.push(create_role_text(username, password)),
    };
    let w3 = World { rows: w2.rows, statements: w2.statements.push(grant_text(username)) };
    assert(drive(w3, SignupState::GrantingRole, username, password, Event::Done, hashed, 0) == (
        w3,
        Request::Respond(Ok(username)),
    ));
    assert(drive(w2, SignupState::CreatingRole, username, password, Event::Done, hashed, 1) == (
        w3,
        Request::Respond(Ok(username)),
    ));
    assert(drive(w1, SignupState::InsertingUser, username, password, Event::Done, hashed, 2) == (
        w3,
        Request::Respond(Ok(username)),
    ));
    assert(drive(
        world,
        SignupState::FindingUser,
        username,
        password,
        Event::Found(None),
        hashed,
        3,
    ) == (w3, Request::Respond(Ok(username))));
    assert(serve(world, Request::FindUser { username }) == (world, Event::Found(None)));
}

/// Signup, then login: where a signup with a username that no account had
/// answers with success against a working store, and the hash it was given
/// is one that accepts the password, as every hash of the hasher is, a login
/// with the same username and password succeeds in the world that the
/// signup left.
pub proof fn signup_then_login_succeeds(
    world: World,
    username: Seq<char>,
    password: Seq<char>,
    hashed: Result<Seq<char>, HashingFailure>,
)
    requires
        !world.rows.contains_key(username),
        hashed matches Ok(encoded) ==> argon2_verdict(encoded, encode_utf8(password))
            == Verdict::Match,
        signup_run(world, username, password, hashed).1 is Respond,
        signup_run(world, username, password, hashed).1->Respond_0 is Ok,
    ensures
        login_outcome(
            lookup(signup_run(world, username, password, hashed).0, username),
            password,
        ) == Ok::<(), Failure>(()),
{
    if !email_shaped(encode_utf8(username)) {
        misshaped_username_is_refused_untouched(world, username, password, hashed);
    } else {
        match hashed {
            Ok(encoded) => {
                signup_of_free_username_succeeds(world, username, password, encoded);
                assert(world.rows.insert(username, encoded)[username] == encoded);
            },
            Err(_) => {
                assert(serve(world, Request::FindUser { username }) == (
                    world,
                    Event::Found(None),
                ));
                assert(drive(
                    world,
                    SignupState::FindingUser,
                    username,
                    password,
                    Event::Found(None),
                    hashed,
                    3,
                ) == (world, Request::Respond(Err(Status::InternalServerError))));
            },
        }
    }
}

/// Two signups at the same time for one well-shaped username that no
/// account has, both with their passwords hashed, against a working store
/// and with their steps interleaved in any order. At no moment have both
/// succeeded, and no more was run than the two statements of one of them.
/// Once both have responded, exactly one has succeeded and the other was
/// told that the username is taken; the role was created once, with the
/// password of the one that succeeded, and the group granted once.
pub proof fn one_of_two_signups_wins(
    world: World,
    username: Seq<char>,
    first: Entrant,
    second: Entrant,
    schedule: Seq<bool>,
)
    requires
        email_shaped(encode_utf8(username)),
        !world.rows.contains_key(username),
    ensures
        ({
            let end = race_run(
                race_start(world, username, first, second),
                username,
                first,
                second,
                schedule,
            );
            let ran = end.world.statements;
            let of_first = world.statements.push(create_role_text(username, first.password));
            let of_second = world.statements.push(create_role_text(username, second.password));
            &&& !(won(end.first, username) && won(end.second, username))
            &&& ran == world.statements || ran == of_first || ran == of_second || ran
                == of_first.push(grant_text(username)) || ran == of_second.push(
                grant_text(username),
            )
            &&& end.first.pending is Respond && end.second.pending is Respond ==> {
                ||| won(end.first, username) && lost(end.second) && ran == of_first.push(
                    grant_text(username),
                )
                ||| lost(end.first) && won(end.second, username) && ran == of_second.push(
                    grant_text(username),
                )
            }
        }),
{
    assert(consistent(race_start(world, username, first, second), world, username, first, second));
    run_keeps_consistent(world, username, first, second, schedule);
}

} // verus!
