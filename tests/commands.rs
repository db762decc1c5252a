use std::collections::HashMap;
use todoist::client::encode_kinds;
use todoist::command::{encode_batch, Ids};
use todoist::{
    Client, Color, CommandArgs, CommandError, CommandErrors, CommandResponse, CommandStatus, Error,
    IntBool, Item, Note, Project, ResourceType, Thumbnail,
};

fn uuid_text(v: u128) -> String {
    uuid::Uuid::from_u128(v).to_string()
}

#[test]
fn project_create() {
    let mut new_project = Project::default();
    new_project.name = "my cool project".to_string();
    new_project.is_favorite = IntBool::from(true);
    let mut args = Project::add();
    args.name = new_project.name.clone();
    args.is_favorite = new_project.is_favorite;

    let mut client = Client::new("SECRET-REDACTED");
    let mut tx = client.begin();
    tx.exec(CommandArgs::ProjectAdd(args));
    let cmd = &tx.commands()[0];
    let cmd_str = cmd.to_json();
    assert_eq!(
        cmd_str,
        format!(
            "{{\"type\":\"project_add\",\
             \"args\":\
             {{\"name\":\"my cool project\",\
               \"color\":0,\"indent\":0,\
               \"item_order\":0,\"is_favorite\":1}},\
             \"uuid\":\"{}\",\
             \"temp_id\":\"{}\"}}",
            uuid_text(cmd.uuid),
            uuid_text(cmd.temp_id.unwrap())
        )
    );
    assert_ne!(cmd.uuid, cmd.temp_id.unwrap());
}

#[test]
fn only_creations_get_temp_ids() {
    let mut client = Client::new("t");
    let mut tx = client.begin();
    let mut p = Project::default();
    p.id = 42;
    tx.exec(CommandArgs::ProjectDelete(p.delete())).exec(CommandArgs::ItemAdd(Item::add()));
    assert_eq!(tx.commands().len(), 2);
    assert!(tx.commands()[0].temp_id.is_none());
    assert!(tx.commands()[1].temp_id.is_some());
    let json = tx.commands()[0].to_json();
    assert!(json.starts_with("{\"type\":\"project_delete\",\"args\":{\"ids\":[42]},\"uuid\":\""));
    assert!(json.ends_with(",\"temp_id\":null}"));
}

#[test]
fn update_copies_fields() {
    let mut p = Project::default();
    p.id = 7;
    p.name = "Work \"stuff\"".to_string();
    p.color = Color::Red;
    p.indent = 2;
    p.item_order = -3;
    let u = p.update();
    let mut out = String::new();
    u.write_json(&mut out);
    assert_eq!(
        out,
        "{\"id\":7,\"name\":\"Work \\\"stuff\\\"\",\"color\":13,\"indent\":2,\"item_order\":-3,\"collapsed\":0,\"is_favorite\":0}"
    );
}

#[test]
fn item_commands_encode() {
    let mut a = Item::add();
    a.project_id = 3;
    a.content = Some("milk".to_string());
    a.priority = 4;
    a.labels = vec![1, 2];
    a.auto_reminders = Some(true);
    let mut out = String::new();
    a.write_json(&mut out);
    assert_eq!(
        out,
        "{\"project_id\":3,\"content\":\"milk\",\"date_string\":null,\"date_lang\":null,\"due_date_utc\":null,\"priority\":4,\"indent\":0,\"item_order\":0,\"day_order\":0,\"collapsed\":0,\"labels\":[1,2],\"assigned_by_uid\":null,\"auto_reminders\":true,\"auto_parse_labels\":null}"
    );
    let mut u = Item::default().update();
    u.due_date_utc = Some(todoist::Date::default());
    let mut out = String::new();
    u.write_json(&mut out);
    assert!(out.contains(",\"due_date_utc\":\"Thu 01 Jan 1970 00:00:00 +0000\","));
    let m = todoist::command::item::Move::new(1).item(5, 1).item(7, 8).item(5, 6).to_project(9);
    assert_eq!(m.project_items(), &vec![(5, 6), (7, 8)]);
    assert_eq!(m.target(), 9);
    let mut out = String::new();
    m.write_json(&mut out);
    assert_eq!(out, "{\"project_items\":{\"5\":6,\"7\":8},\"to_project\":9}");
}

#[test]
fn note_with_attachment_encodes() {
    let mut n = Note::default();
    n.id = 1;
    n.content = "see file".to_string();
    n.file_attachment.file_name = "a.png".to_string();
    n.file_attachment.tn_s = Some(Thumbnail::from_parts(Some("http://x/s".to_string()), Some(10), None));
    let mut out = String::new();
    n.update().write_json(&mut out);
    assert_eq!(
        out,
        "{\"id\":1,\"content\":\"see file\",\"file_attachment\":{\"file_name\":\"a.png\",\"file_size\":0,\"file_type\":\"\",\"file_url\":\"\",\"upload_state\":\"completed\",\"tn_s\":[\"http://x/s\",10,0],\"tn_m\":null,\"tn_l\":null}}"
    );
}

#[test]
fn thumbnail_defaults() {
    let t = Thumbnail::from_parts(None, None, Some(4));
    assert_eq!(t.link, "");
    assert_eq!(t.width, 0);
    assert_eq!(t.height, 4);
}

#[test]
fn batch_encodes_in_order() {
    let mut client = Client::new("t");
    let mut tx = client.begin();
    tx.exec(CommandArgs::LabelDelete(Ids { ids: vec![1] }));
    tx.exec(CommandArgs::ItemClose(Ids { ids: vec![2, 3] }));
    let batch = encode_batch(tx.commands());
    let a = tx.commands()[0].to_json();
    let b = tx.commands()[1].to_json();
    assert_eq!(batch, format!("[{},{}]", a, b));
    let form = tx.send_form();
    assert_eq!(form[0], ("token".to_string(), "t".to_string()));
    assert_eq!(form[1], ("commands".to_string(), batch));
    let empty: Vec<todoist::Command> = Vec::new();
    assert_eq!(encode_batch(&empty), "[]");
}

#[test]
fn sync_form_lists_kinds() {
    let client = Client::new("abc");
    let form = client.sync_form("*", &vec![ResourceType::Projects, ResourceType::LiveNotifications]);
    assert_eq!(form[0], ("token".to_string(), "abc".to_string()));
    assert_eq!(form[1], ("sync_token".to_string(), "*".to_string()));
    assert_eq!(form[2], ("resource_types".to_string(), "[\"projects\",\"live_notifications\"]".to_string()));
    assert_eq!(encode_kinds(&vec![]), "[]");
}

fn three_command_response(ids: &[u128]) -> CommandResponse {
    let mut r = CommandResponse::default();
    r.sync_status.insert(ids[0], CommandStatus::Success("ok".to_string()));
    r.sync_status.insert(ids[1], CommandStatus::Error(CommandError { error_code: 15, error: "Invalid temporary id".to_string() }));
    r.sync_status.insert(ids[2], CommandStatus::Success("ok".to_string()));
    r.temp_id_mappings.insert(100, 1001);
    r.temp_id_mappings.insert(300, 3003);
    r
}

#[test]
fn batch_partial_failure() {
    let mut client = Client::new("t");
    let mut tx = client.begin();
    tx.exec(CommandArgs::ProjectAdd(Project::add()));
    tx.exec(CommandArgs::ItemAdd(Item::add()));
    tx.exec(CommandArgs::ProjectAdd(Project::add()));
    let ids: Vec<u128> = tx.commands().iter().map(|c| c.uuid).collect();
    match tx.commit(three_command_response(&ids)) {
        Err(Error::ApiError(errs)) => {
            assert_eq!(errs.errors().len(), 1);
            assert_eq!(errs.errors()[&ids[1]].error_code, 15);
            assert_eq!(errs.errors()[&ids[1]].error, "Invalid temporary id");
            assert_eq!(errs.command_count(), 3);
            assert_eq!(errs.temp_id_mappings().len(), 2);
            assert_eq!(errs.temp_id_mappings()[&300], 3003);
            assert_eq!(
                errs.describe(),
                format!(
                    "1/3 commands failed: \n - {}: command failed (error 15): Invalid temporary id",
                    uuid_text(ids[1])
                )
            );
        }
        _ => panic!("expected a batch error"),
    }
}

#[test]
fn batch_success() {
    let mut r = CommandResponse::default();
    r.sync_status.insert(1, CommandStatus::Success("ok".to_string()));
    r.temp_id_mappings.insert(2, 77);
    assert!(CommandErrors::check_response(&r).is_ok());
    let mut client = Client::new("t");
    let tx = client.begin();
    let resp = tx.commit(r).unwrap();
    assert_eq!(resp.temp_id_mappings[&2], 77);
    let mut m: HashMap<u128, CommandStatus> = HashMap::new();
    m.insert(9, CommandStatus::Error(CommandError::default()));
    let bad = CommandResponse { sync_status: m, temp_id_mappings: HashMap::new() };
    assert!(CommandErrors::check_response(&bad).is_err());
}

#[test]
fn command_error_text() {
    let e = CommandError { error_code: -2, error: "nope".to_string() };
    assert_eq!(e.describe(), "command failed (error -2): nope");
}

#[test]
fn builders_set_fields() {
    let p = Project::add().name("Errands").color(Color::Teal).indent(2).item_order(5).is_favorite(IntBool::from(true));
    let mut out = String::new();
    p.write_json(&mut out);
    assert_eq!(out, "{\"name\":\"Errands\",\"color\":10,\"indent\":2,\"item_order\":5,\"is_favorite\":1}");
    let i = Item::add().content("milk".to_string()).labels(3).labels(4).project_id(9);
    assert_eq!(i.content.as_deref(), Some("milk"));
    assert_eq!(i.labels, vec![3, 4]);
    assert_eq!(i.project_id, 9);
    let n = Note::add().uids_to_notify(vec![1]).item_id(2);
    assert_eq!(n.uids_to_notify, Some(vec![1]));
    assert_eq!(n.item_id, Some(2));
}

#[test]
fn staged_ids_are_distinct() {
    let mut client = Client::new("t");
    let mut tx = client.begin();
    assert!(tx.staged().is_empty());
    tx.exec(CommandArgs::ProjectAdd(Project::add()));
    tx.exec(CommandArgs::LabelDelete(Ids { ids: vec![1] }));
    tx.exec(CommandArgs::ItemAdd(Item::add()));
    let ids = tx.staged();
    assert_eq!(ids.len(), 5);
    for i in 0..ids.len() {
        for j in 0..i {
            assert_ne!(ids[i], ids[j]);
        }
    }
    assert_eq!(ids[0], tx.commands()[0].uuid);
    assert_eq!(ids[1], tx.commands()[0].temp_id.unwrap());
}
