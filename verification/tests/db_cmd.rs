use libtrader::client::initializer::libtrader_init;
use libtrader::common::account::position::Position;
use libtrader::common::generic::company::Company;
use libtrader::common::misc::return_flags::ReturnFlags;
use libtrader::server::db::cmd::create_position::{
    create_position, create_position_done, CREATE_POSITION_SQL,
};
use libtrader::server::db::cmd::create_stock::{create_stock, create_stock_done};
use libtrader::server::db::cmd::get_user_hash::{get_user_hash, get_user_hash_done};
use libtrader::server::db::initializer::{db_connect, db_init};
use libtrader::server::db::statement::{SqlValue, Statement};

/// Stands in for the store: takes every statement that binds as many values
/// as its text has placeholders.
fn run(statement: &Statement) -> bool {
    let placeholders = statement.text.matches('$').count();
    placeholders == statement.params.len()
}

#[test]
fn test_cmd_create_position() {
    let statement = create_position(1, Position::default());
    match create_position_done(run(&statement)) {
        Ok(_) => {}
        Err(err) => panic!("TEST_CMD_CREATE_PORTFOLIO_FAILED: {}", err.name()),
    }
}

#[test]
fn test_cmd_create_stock() {
    let statement = create_stock("AAPL");
    match create_stock_done(if run(&statement) { Ok(()) } else { Err(String::new()) }) {
        Ok(()) => {
            /* confirm that the stock table is the one created */
            let exists: bool = statement.text.starts_with("CREATE TABLE asset_schema.AAPL (");
            assert_eq!(exists, true);
        }
        Err(err) => panic!("TEST_CMD_CREATE_STOCK: {}", err),
    }
}

#[test]
fn test_libtrader_init() {
    /* add test company */
    let mut company = Company::default();
    company.id = 1234;
    company.symbol = "CPP".to_string();
    company.isin = "2".to_string();
    company.company_name = "CPP".to_string();
    company.primary_exchange = "NYSE".to_string();
    company.sector = "Tech".to_string();
    company.industry = "Tech".to_string();
    company.primary_sic_code = "2".to_string();
    company.employees = 1;

    /* test libtrader_init */
    match libtrader_init(Ok(vec![company])) {
        Ok(state) => assert_eq!(state.companies.is_empty(), false),
        Err(err) => panic!("TEST_INIT_FAILED: {}", err),
    }
}

#[test]
fn create_position_binds_the_fields_in_column_order() {
    let position = Position {
        stock_symbol: "AAPL".to_string(),
        stock_open_amount: 10,
        stock_open_price: 200,
        stock_open_cost: 2000,
        stock_close_amount: 4,
        stock_close_price: 250,
        open_epoch: 1_600_000_000,
        close_epoch: 1_600_000_500,
        is_buy: true,
        is_open: false,
    };
    let statement = create_position(7, position);
    assert_eq!(statement.text, CREATE_POSITION_SQL);
    assert_eq!(
        statement.params,
        vec![
            SqlValue::BigInt(7),
            SqlValue::Text("AAPL".to_string()),
            SqlValue::BigInt(10),
            SqlValue::BigInt(200),
            SqlValue::BigInt(2000),
            SqlValue::BigInt(4),
            SqlValue::BigInt(250),
            SqlValue::BigInt(1_600_000_000),
            SqlValue::BigInt(1_600_000_500),
            SqlValue::Bool(true),
            SqlValue::Bool(false),
        ]
    );
}

#[test]
fn create_position_done_reports_a_store_that_refused() {
    assert_eq!(create_position_done(true), Ok(()));
    assert_eq!(
        create_position_done(false),
        Err(ReturnFlags::ServerDbCreatePositionFailed)
    );
}

#[test]
fn create_stock_writes_the_name_into_the_statement() {
    let statement = create_stock("AAPL");
    assert_eq!(
        statement.text,
        "CREATE TABLE asset_schema.AAPL ( \
         id                  BIGSERIAL PRIMARY KEY, \
         isin                TEXT NOT NULL, \
         time_epoch          BIGINT NOT NULL, \
         ask_price           BIGINT NOT NULL, \
         bid_price           BIGINT NOT NULL, \
         volume              BIGINT NOT NULL \
         )"
    );
    assert!(statement.params.is_empty());
}

#[test]
fn create_stock_done_carries_the_words_of_the_store() {
    assert_eq!(create_stock_done(Ok(())), Ok(()));
    assert_eq!(
        create_stock_done(Err("relation exists".to_string())),
        Err("DB_FAILED_TO_CREATE_STOCK_TABLE: relation exists".to_string())
    );
}

#[test]
fn db_connect_lists_the_parameters() {
    assert_eq!(
        db_connect("trader", "hunter2"),
        "host=localhost port=5432 dbname=pt_db user=trader password=hunter2"
    );
}

#[test]
fn get_user_hash_selects_the_hash_that_is_asked_for() {
    let email = get_user_hash("alice", true, true).unwrap();
    assert_eq!(
        email.text,
        "SELECT username, email_hash FROM accounts_schema.accounts WHERE username = $1"
    );
    assert_eq!(email.params, vec![SqlValue::Text("alice".to_string())]);
    let pass = get_user_hash("alice", false, true).unwrap();
    assert_eq!(
        pass.text,
        "SELECT username, pass_hash FROM accounts_schema.accounts WHERE username = $1"
    );
    assert_eq!(get_user_hash("alice", true, false), Err(ReturnFlags::ServerDbUserHashNotFound));
    assert_eq!(get_user_hash("alice", false, false), Err(ReturnFlags::ServerDbUserHashNotFound));

    assert_eq!(
        get_user_hash_done(vec!["ABCD".to_string(), "EF01".to_string()]),
        Ok("ABCD".to_string())
    );
    assert_eq!(get_user_hash_done(Vec::new()), Err(ReturnFlags::ServerDbUserHashNotFound));
}

#[test]
fn db_init_reads_the_companies() {
    let statement = db_init();
    assert_eq!(statement.text, "SELECT * FROM public.companies");
    assert!(statement.params.is_empty());
}
