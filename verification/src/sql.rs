use vstd::prelude::*;

verus! {

// The SQL statements that the site runs against its SQLite database.
pub const CREATE_USER: &'static str = "INSERT INTO Users (id, username, password) VALUES ($1, $2, $3);";
pub const GET_USER: &'static str = "SELECT * FROM Users WHERE id = $1";
pub const GET_USER_BYNAME: &'static str = "SELECT * FROM Users WHERE username = $1";
pub const CREATE_SESSION: &'static str = "INSERT INTO Sessions (id, userid, expires) VALUES ($1, $2, $3);";
pub const DELETE_SESSION_BYID: &'static str = "DELETE FROM Sessions WHERE id = $1;";
pub const GET_SESSION_BYID: &'static str = "SELECT * FROM Sessions WHERE id = $1;";
pub const UPDATE_SESSION_BYID: &'static str = "UPDATE Sessions SET expires = $1 WHERE id = $2;";

} // verus!
