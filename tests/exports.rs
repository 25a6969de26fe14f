use idsmith_web::domain::Domain;
use idsmith_web::export::{clipboard_text, csv_text, json_text, sql_text, Format, ResultRow};

fn iban_rows() -> Vec<ResultRow> {
    vec![
        ResultRow {
            values: vec![
                Some("DE89370400440532013000".to_string()),
                Some("DE89 3704 0044 0532 0130 00".to_string()),
            ],
            valid: true, checked: String::new()
        },
        ResultRow {
            values: vec![Some("GB29NWBK60161331926818".to_string()), Some("GB29 NWBK 6016 1331 9268 18".to_string())],
            valid: false, checked: String::new()
        },
    ]
}

fn tax_row() -> ResultRow {
    ResultRow {
        values: vec![
            Some("ABCDE1234F".to_string()),
            Some("PAN".to_string()),
            Some("IN \u{2014} India".to_string()),
            None,
        ],
        valid: true, checked: String::new()
    }
}

#[test]
fn csv_of_ibans_plain_and_spaced() {
    let rows = iban_rows();
    let plain = csv_text(&Domain::Iban.schema(false), &rows);
    assert_eq!(plain, "IBAN,Valid\nDE89370400440532013000,Yes\nGB29NWBK60161331926818,No\n");
    let spaced = csv_text(&Domain::Iban.schema(true), &rows);
    assert_eq!(spaced, "IBAN,Valid\nDE89 3704 0044 0532 0130 00,Yes\nGB29 NWBK 6016 1331 9268 18,No\n");
}

#[test]
fn csv_of_tax_ids_puts_type_before_country() {
    let csv = csv_text(&Domain::TaxId.schema(false), &vec![tax_row()]);
    assert_eq!(csv, "Code,Name,Type,Country,Valid\nABCDE1234F,PAN,,IN \u{2014} India,Yes\n");
}

#[test]
fn csv_of_no_rows_is_the_header() {
    let csv = csv_text(&Domain::CreditCard.schema(false), &vec![]);
    assert_eq!(csv, "Number,Brand,Valid\n");
}

#[test]
fn sql_of_ibans() {
    let sql = sql_text(&Domain::Iban.schema(true), &iban_rows());
    assert_eq!(
        sql,
        "CREATE TABLE IF NOT EXISTS ibans (iban TEXT, valid BOOLEAN);\n\
         INSERT INTO ibans (iban, valid) VALUES ('DE89370400440532013000', true);\n\
         INSERT INTO ibans (iban, valid) VALUES ('GB29NWBK60161331926818', false);\n"
    );
}

#[test]
fn sql_of_tax_ids() {
    let sql = sql_text(&Domain::TaxId.schema(false), &vec![tax_row()]);
    assert_eq!(
        sql,
        "CREATE TABLE IF NOT EXISTS tax_ids (code TEXT, name TEXT, holder_type TEXT, country TEXT, valid BOOLEAN);\n\
         INSERT INTO tax_ids (code, name, holder_type, country, valid) VALUES ('ABCDE1234F', 'PAN', '', 'IN \u{2014} India', true);\n"
    );
}

#[test]
fn json_of_ibans_is_pretty_printed() {
    let json = json_text(&Domain::Iban.schema(false), &iban_rows()[..1].to_vec());
    assert_eq!(
        json,
        "[\n  {\n    \"raw\": \"DE89370400440532013000\",\n    \"formatted\": \"DE89 3704 0044 0532 0130 00\",\n    \"valid\": true\n  }\n]"
    );
}

#[test]
fn json_of_no_rows_is_empty_array() {
    assert_eq!(json_text(&Domain::Lei.schema(false), &vec![]), "[]");
}

#[test]
fn json_export_parses_back_to_the_same_rows() {
    let mut rows = iban_rows();
    rows.push(ResultRow {
        values: vec![Some("quote\"back\\slash".to_string()), Some("tab\there".to_string())],
        valid: true, checked: String::new()
    });
    let json = json_text(&Domain::Iban.schema(true), &rows);
    let v: serde_json::Value = serde_json::from_str(&json).unwrap();
    let arr = v.as_array().unwrap();
    assert_eq!(arr.len(), rows.len());
    for (obj, row) in arr.iter().zip(rows.iter()) {
        assert_eq!(obj["raw"].as_str().unwrap(), row.values[0].as_deref().unwrap());
        assert_eq!(obj["formatted"].as_str().unwrap(), row.values[1].as_deref().unwrap());
        assert_eq!(obj["valid"].as_bool().unwrap(), row.valid);
        assert_eq!(obj.as_object().unwrap().len(), 3);
    }
}

#[test]
fn json_writes_empty_field_as_null() {
    let json = json_text(&Domain::TaxId.schema(false), &vec![tax_row()]);
    let v: serde_json::Value = serde_json::from_str(&json).unwrap();
    assert!(v[0]["holder_type"].is_null());
    assert_eq!(v[0]["country"], "IN \u{2014} India");
    assert_eq!(v[0]["name"], "PAN");
}

#[test]
fn formats_name_their_files() {
    let schema = Domain::Vat.schema(false);
    assert_eq!(Format::Csv.file_name(&schema), "vat_numbers.csv");
    assert_eq!(Format::Json.file_name(&schema), "vat_numbers.json");
    assert_eq!(Format::Sql.file_name(&schema), "vat_numbers.sql");
    assert_eq!(Format::Json.mime(), "application/json;charset=utf-8;");
    assert_eq!(Format::Csv.render(&schema, &vec![]), "Code,Country Code,Country Name,Valid\n");
}

#[test]
fn clipboard_text_per_domain() {
    let rows = iban_rows();
    assert_eq!(
        clipboard_text(Domain::Iban, true, &rows),
        "DE89 3704 0044 0532 0130 00\nGB29 NWBK 6016 1331 9268 18"
    );
    assert_eq!(clipboard_text(Domain::Iban, false, &rows), "DE89370400440532013000\nGB29NWBK60161331926818");
    let bank = vec![
        ResultRow { values: vec![Some("12345678".to_string()), Some("021000021".to_string())], valid: true, checked: String::new() },
        ResultRow { values: vec![Some("99".to_string()), Some(String::new())], valid: true, checked: String::new() },
    ];
    assert_eq!(clipboard_text(Domain::BankAccount, false, &bank), "12345678 (021000021)\n99");
}
