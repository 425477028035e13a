//! The wording of the statements of [`crate::email_actions`].

use vstd::prelude::*;

use crate::email_actions::EmailActionRepository;

verus! {

/// The texts of [`EmailActionRepository`], word for word.
pub proof fn texts_are_worded_so()
    ensures
        EmailActionRepository::COOLING_DOWN@ == "SELECT EXISTS(SELECT 1 FROM user_email_actions WHERE "@,
        EmailActionRepository::COOLING_DOWN_TAIL@ == ")"@,
        EmailActionRepository::IS_RECENT@ == "created_at>now()-make_interval(secs=>$3)"@,
        EmailActionRepository::CONSUME@ == "UPDATE user_email_actions SET "@,
        EmailActionRepository::CONSUME_FROM@ == " WHERE id=(SELECT id FROM user_email_actions WHERE "@,
        EmailActionRepository::CONSUME_TAIL@ == " FOR UPDATE) RETURNING user_id"@,
{
}

} // verus!
