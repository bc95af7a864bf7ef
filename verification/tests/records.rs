use schedule_api::decode::{decode_text, read_field, read_optional_field, Decode};
use schedule_api::error::DecodeError;
use schedule_api::types::announcement::{Announcement, StudentGroup};
use schedule_api::types::auditory::{Auditory, AuditoryDepartment, AuditoryType, BuildingNumber};
use schedule_api::types::department::Department;
use schedule_api::types::employee::Employee;
use schedule_api::types::faculty::Faculty;
use schedule_api::types::group::Group;
use schedule_api::types::last_update::LastUpdate;
use schedule_api::types::specialities::{EducationForm, Speciality};

fn json(text: &str) -> serde_json::Value {
    serde_json::from_str(text).unwrap()
}

#[test]
fn auditory_with_every_field() {
    let text = r#"{"id": 11, "name": "101", "note": "ремонт", "capacity": 120,
        "auditoryType": {"id": 1, "name": "лекционная аудитория", "abbrev": "лк"},
        "buildingNumber": {"id": 4, "name": "4 к."},
        "department": {"idDepartment": 20005, "abbrev": "ИПиЭ", "name": "Каф. инженерной психологии",
                       "nameAndAbbrev": "ИПиЭ - Каф. инженерной психологии"}}"#;
    assert_eq!(
        decode_text::<Auditory>(text),
        Ok(Auditory {
            id: 11,
            name: "101".to_string(),
            note: Some("ремонт".to_string()),
            capacity: Some(120),
            auditory_type: AuditoryType {
                id: 1,
                name: "лекционная аудитория".to_string(),
                abbrev: "лк".to_string(),
            },
            building_number: BuildingNumber { id: 4, name: "4 к.".to_string() },
            department: Some(AuditoryDepartment {
                id_department: 20005,
                abbrev: "ИПиЭ".to_string(),
                name: "Каф. инженерной психологии".to_string(),
                name_and_abbrev: "ИПиЭ - Каф. инженерной психологии".to_string(),
            }),
        })
    );
}

#[test]
fn auditory_without_its_optional_fields() {
    let bare = Auditory {
        id: 12,
        name: "102а".to_string(),
        note: None,
        capacity: None,
        auditory_type: AuditoryType {
            id: 2,
            name: "лабораторные занятия".to_string(),
            abbrev: "лб".to_string(),
        },
        building_number: BuildingNumber { id: 4, name: "4 к.".to_string() },
        department: None,
    };
    let left_out = r#"{"id": 12, "name": "102а",
        "auditoryType": {"id": 2, "name": "лабораторные занятия", "abbrev": "лб"},
        "buildingNumber": {"id": 4, "name": "4 к."}}"#;
    assert_eq!(decode_text::<Auditory>(left_out), Ok(bare.clone()));
    let null = r#"{"id": 12, "name": "102а", "note": null, "capacity": null,
        "auditoryType": {"id": 2, "name": "лабораторные занятия", "abbrev": "лб"},
        "buildingNumber": {"id": 4, "name": "4 к."}, "department": null}"#;
    assert_eq!(decode_text::<Auditory>(null), Ok(bare));
}

#[test]
fn empty_note_is_a_note() {
    let text = r#"{"id": 12, "name": "102а", "note": "", "capacity": 0,
        "auditoryType": {"id": 2, "name": "", "abbrev": ""},
        "buildingNumber": {"id": 4, "name": ""}}"#;
    let room = decode_text::<Auditory>(text).unwrap();
    assert_eq!(room.note, Some(String::new()));
    assert_eq!(room.capacity, Some(0));
}

#[test]
fn list_of_auditories() {
    let text = r#"[
        {"id": 11, "name": "101", "auditoryType": {"id": 1, "name": "лекционная", "abbrev": "лк"},
         "buildingNumber": {"id": 4, "name": "4 к."}},
        {"id": 12, "name": "102", "capacity": 30,
         "auditoryType": {"id": 2, "name": "лабораторная", "abbrev": "лб"},
         "buildingNumber": {"id": 5, "name": "5 к."}}
    ]"#;
    let rooms = decode_text::<Vec<Auditory>>(text).unwrap();
    assert_eq!(rooms.len(), 2);
    assert_eq!(rooms[0].id, 11);
    assert_eq!(rooms[0].capacity, None);
    assert_eq!(rooms[1].id, 12);
    assert_eq!(rooms[1].capacity, Some(30));
    assert_eq!(rooms[1].building_number, BuildingNumber { id: 5, name: "5 к.".to_string() });
}

#[test]
fn department_and_faculty() {
    let text = r#"{"id": 20019, "name": "Кафедра информатики", "abbrev": "Информатики"}"#;
    assert_eq!(
        decode_text::<Department>(text),
        Ok(Department {
            id: 20019,
            name: "Кафедра информатики".to_string(),
            abbrev: "Информатики".to_string(),
        })
    );
    assert_eq!(
        decode_text::<Faculty>(text),
        Ok(Faculty {
            id: 20019,
            name: "Кафедра информатики".to_string(),
            abbrev: "Информатики".to_string(),
        })
    );
}

#[test]
fn employee_with_and_without_rank() {
    let text = r#"{"id": 500434, "firstName": "Сергей", "lastName": "Нестеренков",
        "middleName": "Николаевич", "degree": "к.т.н.", "rank": "доцент",
        "photoLink": "https://iis.bsuir.by/api/v1/employees/photo/500434",
        "calendarId": "abc@group.calendar.google.com",
        "academicDepartment": ["ПОИТ", "Информатики"],
        "urlId": "s-nesterenkov", "fio": "Нестеренков С. Н. (доцент)"}"#;
    let with_rank = Employee {
        id: 500434,
        first_name: "Сергей".to_string(),
        last_name: "Нестеренков".to_string(),
        middle_name: "Николаевич".to_string(),
        degree: "к.т.н.".to_string(),
        rank: Some("доцент".to_string()),
        photo_link: "https://iis.bsuir.by/api/v1/employees/photo/500434".to_string(),
        calendar_id: "abc@group.calendar.google.com".to_string(),
        academic_department: vec!["ПОИТ".to_string(), "Информатики".to_string()],
        url_id: "s-nesterenkov".to_string(),
        fio: "Нестеренков С. Н. (доцент)".to_string(),
    };
    assert_eq!(decode_text::<Employee>(text), Ok(with_rank.clone()));
    let without_rank = Employee { rank: None, academic_department: vec![], ..with_rank };
    let text = r#"{"id": 500434, "firstName": "Сергей", "lastName": "Нестеренков",
        "middleName": "Николаевич", "degree": "к.т.н.", "rank": null,
        "photoLink": "https://iis.bsuir.by/api/v1/employees/photo/500434",
        "calendarId": "abc@group.calendar.google.com", "academicDepartment": [],
        "urlId": "s-nesterenkov", "fio": "Нестеренков С. Н. (доцент)"}"#;
    assert_eq!(decode_text::<Employee>(text), Ok(without_rank));
}

#[test]
fn group_with_and_without_its_optional_fields() {
    let text = r#"{"id": 23333, "name": "155841", "facultyId": 20033, "facultyName": "ФИНО",
        "specialityDepartmentEducationFormId": 20070, "specialityName": "ПОИТ",
        "course": 4, "calendarId": "xyz@group.calendar.google.com"}"#;
    let full = Group {
        id: 23333,
        name: "155841".to_string(),
        faculty_id: 20033,
        faculty_name: "ФИНО".to_string(),
        speciality_department_education_form_id: Some(20070),
        speciality_name: "ПОИТ".to_string(),
        course: Some(4),
        calendar_id: Some("xyz@group.calendar.google.com".to_string()),
    };
    assert_eq!(decode_text::<Group>(text), Ok(full.clone()));
    let text = r#"{"id": 23333, "name": "155841", "facultyId": 20033, "facultyName": "ФИНО",
        "specialityName": "ПОИТ", "course": null}"#;
    let bare = Group {
        speciality_department_education_form_id: None,
        course: None,
        calendar_id: None,
        ..full
    };
    assert_eq!(decode_text::<Group>(text), Ok(bare));
}

#[test]
fn speciality_with_its_education_form() {
    let text = r#"{"id": 20070, "name": "Программное обеспечение информационных технологий",
        "abbrev": "ПОИТ", "educationForm": {"id": 1, "name": "дневная"}, "facultyId": 20033,
        "code": "1-40 01 01"}"#;
    assert_eq!(
        decode_text::<Speciality>(text),
        Ok(Speciality {
            id: 20070,
            name: "Программное обеспечение информационных технологий".to_string(),
            abbrev: "ПОИТ".to_string(),
            education_form: EducationForm { id: 1, name: "дневная".to_string() },
            faculty_id: 20033,
            code: "1-40 01 01".to_string(),
        })
    );
}

#[test]
fn announcement_with_its_groups() {
    let text = r#"{"id": 7, "employee": "Нестеренков С. Н.", "content": "Занятие \"переносится\"\nна 12:00",
        "date": "29.10.2026", "employeeDepartments": ["ПОИТ"],
        "studentGroups": [{"id": 23333, "name": "155841"}, {"id": 23334, "name": "155842"}]}"#;
    assert_eq!(
        decode_text::<Announcement>(text),
        Ok(Announcement {
            id: 7,
            employee: "Нестеренков С. Н.".to_string(),
            content: "Занятие \"переносится\"\nна 12:00".to_string(),
            date: "29.10.2026".to_string(),
            employee_departments: vec!["ПОИТ".to_string()],
            student_groups: vec![
                StudentGroup { id: 23333, name: "155841".to_string() },
                StudentGroup { id: 23334, name: "155842".to_string() },
            ],
        })
    );
}

#[test]
fn last_update_date_is_kept_as_text() {
    assert_eq!(
        decode_text::<LastUpdate>(r#"{"lastUpdateDate": "not a date at all"}"#),
        Ok(LastUpdate { last_update_date: "not a date at all".to_string() })
    );
}

#[test]
fn escapes_in_strings_are_resolved() {
    assert_eq!(
        decode_text::<LastUpdate>(r#"{"lastUpdateDate": "да\t\\"}"#),
        Ok(LastUpdate { last_update_date: "да\t\\".to_string() })
    );
}

#[test]
fn fields_that_are_not_known_are_passed_over() {
    let text = r#"{"abbrev": "ФКП", "extra": [1, {"a": null}], "id": 20026, "name": "Факультет", "Id": 1}"#;
    assert_eq!(
        decode_text::<Faculty>(text),
        Ok(Faculty { id: 20026, name: "Факультет".to_string(), abbrev: "ФКП".to_string() })
    );
}

#[test]
fn fields_go_by_their_camel_case_names_only() {
    let snake = r#"{"last_update_date": "28.10.2026"}"#;
    assert_eq!(decode_text::<LastUpdate>(snake), Err(DecodeError::UnexpectedShape));
    let pascal = r#"{"LastUpdateDate": "28.10.2026"}"#;
    assert_eq!(decode_text::<LastUpdate>(pascal), Err(DecodeError::UnexpectedShape));
    let snake_department = r#"{"id_department": 1, "abbrev": "a", "name": "n", "name_and_abbrev": "a - n"}"#;
    assert_eq!(
        decode_text::<AuditoryDepartment>(snake_department),
        Err(DecodeError::UnexpectedShape)
    );
}

#[test]
fn a_missing_required_field_is_an_unexpected_shape() {
    assert_eq!(
        decode_text::<Department>(r#"{"id": 1, "name": "n"}"#),
        Err(DecodeError::UnexpectedShape)
    );
    assert_eq!(
        decode_text::<Department>(r#"{"name": "n", "abbrev": "a"}"#),
        Err(DecodeError::UnexpectedShape)
    );
    assert_eq!(decode_text::<Department>("{}"), Err(DecodeError::UnexpectedShape));
    assert_eq!(
        decode_text::<Department>(r#"{"id": 1, "name": null, "abbrev": "a"}"#),
        Err(DecodeError::UnexpectedShape)
    );
}

#[test]
fn a_value_of_another_type_is_an_unexpected_shape() {
    assert_eq!(
        decode_text::<Department>(r#"{"id": "1", "name": "n", "abbrev": "a"}"#),
        Err(DecodeError::UnexpectedShape)
    );
    assert_eq!(
        decode_text::<Department>(r#"{"id": 1, "name": 2, "abbrev": "a"}"#),
        Err(DecodeError::UnexpectedShape)
    );
    assert_eq!(decode_text::<Department>("[1, \"n\", \"a\"]"), Err(DecodeError::UnexpectedShape));
    assert_eq!(decode_text::<Department>("null"), Err(DecodeError::UnexpectedShape));
    assert_eq!(decode_text::<Department>("17"), Err(DecodeError::UnexpectedShape));
    assert_eq!(decode_text::<Vec<Department>>("{}"), Err(DecodeError::UnexpectedShape));
    assert_eq!(decode_text::<Vec<Department>>("null"), Err(DecodeError::UnexpectedShape));
    let wrong_group = r#"{"id": 23333, "name": "155841", "facultyId": 20033, "facultyName": "ФИНО",
        "specialityName": "ПОИТ", "course": "4"}"#;
    assert_eq!(decode_text::<Group>(wrong_group), Err(DecodeError::UnexpectedShape));
    let wrong_room = r#"{"id": 12, "name": "102а",
        "auditoryType": {"id": 2, "name": "лабораторные занятия", "abbrev": "лб"},
        "buildingNumber": {"id": 4, "name": "4 к."}, "department": {"idDepartment": 1}}"#;
    assert_eq!(decode_text::<Auditory>(wrong_room), Err(DecodeError::UnexpectedShape));
}

#[test]
fn identifiers_are_integers_of_32_bits() {
    let with_id = |id: &str| format!(r#"{{"id": {}, "name": "n", "abbrev": "a"}}"#, id);
    assert_eq!(decode_text::<Department>(&with_id("0")).map(|d| d.id), Ok(0));
    assert_eq!(decode_text::<Department>(&with_id("4294967295")).map(|d| d.id), Ok(4294967295));
    for id in ["4294967296", "18446744073709551615", "18446744073709551616", "-1", "1.0", "1e3", "-0"] {
        assert_eq!(
            decode_text::<Department>(&with_id(id)),
            Err(DecodeError::UnexpectedShape),
            "for {}",
            id
        );
    }
}

#[test]
fn text_that_is_not_json_is_malformed() {
    for text in ["", " ", "{", "[", "{\"id\": 1", "{\"id\": 1,}", "{'id': 1}", "[1 2]", "nul", "{} {}", "\u{feff}{}"] {
        assert_eq!(decode_text::<Department>(text), Err(DecodeError::MalformedJson), "for {:?}", text);
        assert_eq!(
            decode_text::<Vec<Department>>(text),
            Err(DecodeError::MalformedJson),
            "for {:?}",
            text
        );
    }
}

#[test]
fn empty_list() {
    assert_eq!(decode_text::<Vec<Employee>>("[]"), Ok(vec![]));
    assert_eq!(decode_text::<Vec<Employee>>(" [ ] "), Ok(vec![]));
}

#[test]
fn plain_values_out_of_json() {
    assert_eq!(u32::decode(&json("17")), Ok(17));
    assert_eq!(u32::decode(&json("\"17\"")), Err(DecodeError::UnexpectedShape));
    assert_eq!(String::decode(&json("\"17\"")), Ok("17".to_string()));
    assert_eq!(String::decode(&json("17")), Err(DecodeError::UnexpectedShape));
    assert_eq!(Option::<u32>::decode(&json("null")), Ok(None));
    assert_eq!(Option::<u32>::decode(&json("5")), Ok(Some(5)));
    assert_eq!(Option::<u32>::decode(&json("true")), Err(DecodeError::UnexpectedShape));
    assert_eq!(Vec::<u32>::decode(&json("[3, 1, 2]")), Ok(vec![3, 1, 2]));
    assert_eq!(Vec::<u32>::decode(&json("[3, null, 2]")), Err(DecodeError::UnexpectedShape));
    assert_eq!(Vec::<Option<u32>>::decode(&json("[3, null, 2]")), Ok(vec![Some(3), None, Some(2)]));
    assert_eq!(
        Vec::<Vec<String>>::decode(&json(r#"[["a"], [], ["b", "c"]]"#)),
        Ok(vec![vec!["a".to_string()], vec![], vec!["b".to_string(), "c".to_string()]])
    );
}

#[test]
fn fields_are_read_under_their_wire_names() {
    let object = json(
        r#"{"facultyId": 20033, "faculty_id": 1, "calendarId": null, "name": "n", "group_id": 5}"#,
    );
    assert_eq!(read_field::<u32>(&object, "faculty_id"), Ok(20033));
    assert_eq!(read_field::<u32>(&object, "group_id"), Err(DecodeError::UnexpectedShape));
    assert_eq!(read_optional_field::<u32>(&object, "group_id"), Ok(None));
    assert_eq!(read_field::<String>(&object, "name"), Ok("n".to_string()));
    assert_eq!(read_field::<String>(&object, "calendar_id"), Err(DecodeError::UnexpectedShape));
    assert_eq!(read_field::<u32>(&object, "course"), Err(DecodeError::UnexpectedShape));
    assert_eq!(read_optional_field::<String>(&object, "calendar_id"), Ok(None));
    assert_eq!(read_optional_field::<u32>(&object, "course"), Ok(None));
    assert_eq!(read_optional_field::<u32>(&object, "faculty_id"), Ok(Some(20033)));
    assert_eq!(read_optional_field::<u32>(&object, "name"), Err(DecodeError::UnexpectedShape));
    let array = json("[1, 2]");
    assert_eq!(read_field::<u32>(&array, "id"), Err(DecodeError::UnexpectedShape));
    assert_eq!(read_optional_field::<u32>(&array, "id"), Ok(None));
}
