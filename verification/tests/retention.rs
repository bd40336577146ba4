use webhooks_receiver::retention::{
    Sweep, SweepAction, SweepEvent, SweepPhase, DELETE_CHUNK_SIZE, FREE_RETENTION_DAYS,
    SWEPT_PLAN, USER_PAGE_SIZE,
};
use webhooks_receiver::sql::build_delete_sql;
use webhooks_receiver::types::UsersByPlanResponse;

fn count_users_in_delete_sql(sql: &str) -> usize {
    let Some(start) = sql.find("user_id IN (") else {
        return 0;
    };
    let list_start = start + "user_id IN (".len();
    let Some(rel_end) = sql[list_start..].find(") AND received_at") else {
        return 0;
    };
    let list = &sql[list_start..list_start + rel_end];
    if list.trim().is_empty() {
        return 0;
    }
    list.split(',').count()
}

fn run_sweep(
    mut source: impl FnMut(&str, Option<&str>, u32) -> Result<UsersByPlanResponse, String>,
    mut deleter: impl FnMut(&[String], u32) -> Result<(), String>,
) -> Result<(u64, u64), String> {
    let (mut sweep, mut action) = Sweep::begin();
    loop {
        let event = match action {
            SweepAction::FetchPage { cursor } => {
                SweepEvent::Page(source(SWEPT_PLAN, cursor.as_deref(), USER_PAGE_SIZE))
            }
            SweepAction::Delete { user_ids } => {
                SweepEvent::Deleted(deleter(&user_ids, FREE_RETENTION_DAYS))
            }
            SweepAction::Finish => return Ok((sweep.total_users, sweep.total_batches)),
            SweepAction::Fail(reason) => return Err(reason),
            SweepAction::Halt => panic!("the driver sent an event that was not asked for"),
        };
        let (next, act) = sweep.step(event);
        sweep = next;
        action = act;
    }
}

#[test]
fn full_sweep_uses_paging_and_chunked_clickhouse_deletes() {
    let mut calls: Vec<(String, Option<String>, u32)> = Vec::new();
    let mut sql: Vec<String> = Vec::new();

    let result = run_sweep(
        |plan, cursor, limit| {
            calls.push((plan.to_string(), cursor.map(|c| c.to_string()), limit));
            Ok(match cursor {
                None => UsersByPlanResponse {
                    error: String::new(),
                    user_ids: (0..205).map(|i| format!("user_{i}")).collect(),
                    next_cursor: Some("cursor_page_2".to_string()),
                    done: false,
                },
                Some("cursor_page_2") => UsersByPlanResponse {
                    error: String::new(),
                    user_ids: vec![
                        "user_205".to_string(),
                        "user_206".to_string(),
                        "user_207".to_string(),
                    ],
                    next_cursor: None,
                    done: true,
                },
                _ => UsersByPlanResponse {
                    error: "bad_cursor".to_string(),
                    user_ids: vec![],
                    next_cursor: None,
                    done: true,
                },
            })
        },
        |user_ids, days| {
            sql.push(build_delete_sql("webhooks", user_ids, days).expect("a chunk is never empty"));
            Ok(())
        },
    );
    result.clone().expect("retention sweep should succeed");
    assert_eq!(result, Ok((208, 3)));

    assert_eq!(calls.len(), 2);
    assert_eq!(calls[0], ("free".to_string(), None, USER_PAGE_SIZE));
    assert_eq!(
        calls[1],
        ("free".to_string(), Some("cursor_page_2".to_string()), USER_PAGE_SIZE)
    );

    assert_eq!(sql.len(), 3);
    for statement in &sql {
        assert!(statement.contains("ALTER TABLE `webhooks`.`requests` DELETE"));
        assert!(statement.contains("received_at < now() - INTERVAL 7 DAY"));
    }
    assert_eq!(count_users_in_delete_sql(&sql[0]), DELETE_CHUNK_SIZE);
    assert_eq!(count_users_in_delete_sql(&sql[1]), 5);
    assert_eq!(count_users_in_delete_sql(&sql[2]), 3);
    assert!(sql[0].contains("'user_0', 'user_1',"));
    assert!(sql[0].contains("'user_199')"));
    assert!(sql[1].contains("('user_200', 'user_201', 'user_202', 'user_203', 'user_204')"));
    assert!(sql[2].contains("('user_205', 'user_206', 'user_207')"));
}

#[test]
fn sweep_fails_on_broken_pagination_response() {
    let result = run_sweep(
        |_plan, _cursor, _limit| {
            Ok(UsersByPlanResponse {
                error: String::new(),
                user_ids: vec!["user_1".to_string()],
                next_cursor: None,
                done: false,
            })
        },
        |_user_ids, _days| Ok(()),
    );
    assert!(result.is_err());
    let err = result.err().unwrap_or_default();
    assert!(err.contains("done=false"));
    assert!(err.contains("nextCursor"));
}

#[test]
fn sweep_stops_at_the_first_failure() {
    let result = run_sweep(|_, _, _| Err("circuit breaker open".to_string()), |_, _| Ok(()));
    assert_eq!(result, Err("fetch free users: circuit breaker open".to_string()));

    let result = run_sweep(
        |_, _, _| {
            Ok(UsersByPlanResponse {
                error: "unauthorized".to_string(),
                user_ids: vec!["u".to_string()],
                next_cursor: None,
                done: true,
            })
        },
        |_, _| panic!("nothing is deleted"),
    );
    assert_eq!(result, Err("convex users-by-plan returned error: unauthorized".to_string()));

    let mut deletes = 0;
    let result = run_sweep(
        |_, _, _| {
            Ok(UsersByPlanResponse {
                error: String::new(),
                user_ids: (0..450).map(|i| format!("u{i}")).collect(),
                next_cursor: None,
                done: true,
            })
        },
        |_, _| {
            deletes += 1;
            if deletes == 2 {
                Err("network: reset".to_string())
            } else {
                Ok(())
            }
        },
    );
    assert_eq!(result, Err("clickhouse delete mutation failed: network: reset".to_string()));
    assert_eq!(deletes, 2);
}

#[test]
fn empty_last_page_ends_the_sweep_without_a_delete() {
    let result = run_sweep(
        |_, _, _| {
            Ok(UsersByPlanResponse {
                error: String::new(),
                user_ids: vec![],
                next_cursor: None,
                done: true,
            })
        },
        |_, _| panic!("nothing is deleted"),
    );
    assert_eq!(result, Ok((0, 0)));
}

#[test]
fn page_of_exactly_one_chunk_is_one_delete() {
    let mut sizes: Vec<usize> = Vec::new();
    let result = run_sweep(
        |_, _, _| {
            Ok(UsersByPlanResponse {
                error: String::new(),
                user_ids: (0..200).map(|i| format!("u{i}")).collect(),
                next_cursor: None,
                done: true,
            })
        },
        |ids, days| {
            assert_eq!(days, 7);
            sizes.push(ids.len());
            Ok(())
        },
    );
    assert_eq!(result, Ok((200, 1)));
    assert_eq!(sizes, vec![200]);
}

#[test]
fn event_that_was_not_asked_for_is_halted() {
    let (sweep, _) = Sweep::begin();
    let (sweep, action) = sweep.step(SweepEvent::Deleted(Ok(())));
    assert!(matches!(action, SweepAction::Halt));
    assert!(matches!(sweep.phase, SweepPhase::Fetching));
}
