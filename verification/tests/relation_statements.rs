use pg_analytics::csv::CsvOption;
use pg_analytics::delta::DeltaOption;
use pg_analytics::iceberg::IcebergOption;
use pg_analytics::json::JsonOption;
use pg_analytics::options::TableOptions;
use pg_analytics::parquet::ParquetOption;
use pg_analytics::spatial::SpatialOption;
use pg_analytics::{csv, delta, iceberg, json, parquet, spatial};

fn options_from(pairs: Vec<(String, String)>) -> TableOptions {
    let mut opts = TableOptions::new();
    for (k, v) in pairs {
        opts.set(k, v);
    }
    opts
}

#[test]
fn test_create_csv_relation_single_file() {
    let table_name = "test";
    let schema_name = "main";
    let table_options = options_from(vec![(
        CsvOption::Files.as_str().to_string(),
        "/data/file.csv".to_string(),
    )]);
    let expected =
        "CREATE VIEW IF NOT EXISTS main.test AS SELECT * FROM read_csv('/data/file.csv')";
    let actual = csv::create_duckdb_relation(table_name, schema_name, &table_options).unwrap();

    assert_eq!(expected, actual);
}

#[test]
fn test_create_csv_relation_multiple_files() {
    let table_name = "test";
    let schema_name = "main";
    let table_options = options_from(vec![(
        CsvOption::Files.as_str().to_string(),
        "/data/file1.csv, /data/file2.csv".to_string(),
    )]);

    let expected = "CREATE VIEW IF NOT EXISTS main.test AS SELECT * FROM read_csv(['/data/file1.csv', '/data/file2.csv'])";
    let actual = csv::create_duckdb_relation(table_name, schema_name, &table_options).unwrap();

    assert_eq!(expected, actual);
}

#[test]
fn test_create_csv_relation_with_options() {
    let table_name = "test";
    let schema_name = "main";
    let table_options = options_from(vec![
        (
            CsvOption::Files.as_str().to_string(),
            "/data/file.csv".to_string(),
        ),
        (CsvOption::AllVarchar.as_str().to_string(), "true".to_string()),
        (
            CsvOption::AllowQuotedNulls.as_str().to_string(),
            "true".to_string(),
        ),
        (CsvOption::AutoDetect.as_str().to_string(), "true".to_string()),
        (
            CsvOption::AutoTypeCandidates.as_str().to_string(),
            "BIGINT, DATE".to_string(),
        ),
        (
            CsvOption::Columns.as_str().to_string(),
            "{'col1': 'INTEGER', 'col2': 'VARCHAR'}".to_string(),
        ),
        (CsvOption::Compression.as_str().to_string(), "gzip".to_string()),
        (
            CsvOption::Dateformat.as_str().to_string(),
            "%d/%m/%Y".to_string(),
        ),
        (
            CsvOption::DecimalSeparator.as_str().to_string(),
            ".".to_string(),
        ),
        (CsvOption::Delim.as_str().to_string(), ",".to_string()),
        (CsvOption::Escape.as_str().to_string(), "\"".to_string()),
        (CsvOption::Filename.as_str().to_string(), "true".to_string()),
        (
            CsvOption::ForceNotNull.as_str().to_string(),
            "col1, col2".to_string(),
        ),
        (CsvOption::Header.as_str().to_string(), "true".to_string()),
        (
            CsvOption::HivePartitioning.as_str().to_string(),
            "true".to_string(),
        ),
        (CsvOption::HiveTypes.as_str().to_string(), "true".to_string()),
        (
            CsvOption::HiveTypesAutocast.as_str().to_string(),
            "true".to_string(),
        ),
        (
            CsvOption::IgnoreErrors.as_str().to_string(),
            "true".to_string(),
        ),
        (
            CsvOption::MaxLineSize.as_str().to_string(),
            "1000".to_string(),
        ),
        (CsvOption::Names.as_str().to_string(), "col1, col2".to_string()),
        (CsvOption::NewLine.as_str().to_string(), "\n".to_string()),
        (
            CsvOption::NormalizeNames.as_str().to_string(),
            "true".to_string(),
        ),
        (
            CsvOption::NullPadding.as_str().to_string(),
            "true".to_string(),
        ),
        (
            CsvOption::Nullstr.as_str().to_string(),
            "none, null".to_string(),
        ),
        (CsvOption::Parallel.as_str().to_string(), "true".to_string()),
        (CsvOption::Quote.as_str().to_string(), "\"".to_string()),
        (CsvOption::SampleSize.as_str().to_string(), "100".to_string()),
        (CsvOption::Sep.as_str().to_string(), ",".to_string()),
        (CsvOption::Skip.as_str().to_string(), "0".to_string()),
        (
            CsvOption::Timestampformat.as_str().to_string(),
            "yyyy-MM-dd HH:mm:ss".to_string(),
        ),
        (
            CsvOption::Types.as_str().to_string(),
            "BIGINT, VARCHAR".to_string(),
        ),
        (
            CsvOption::UnionByName.as_str().to_string(),
            "true".to_string(),
        ),
    ]);

    let expected = "CREATE VIEW IF NOT EXISTS main.test AS SELECT * FROM read_csv('/data/file.csv', all_varchar = true, allow_quoted_nulls = true, auto_detect = true, auto_type_candidates = ['BIGINT', 'DATE'], columns = {'col1': 'INTEGER', 'col2': 'VARCHAR'}, compression = 'gzip', dateformat = '%d/%m/%Y', decimal_separator = '.', delim = ',', escape = '\"', filename = true, force_not_null = ['col1', 'col2'], header = true, hive_partitioning = true, hive_types = true, hive_types_autocast = true, ignore_errors = true, max_line_size = 1000, names = ['col1', 'col2'], new_line = '\n', normalize_names = true, null_padding = true, nullstr = ['none', 'null'], parallel = true, quote = '\"', sample_size = 100, sep = ',', skip = 0, timestampformat = 'yyyy-MM-dd HH:mm:ss', types = ['BIGINT', 'VARCHAR'], union_by_name = true)";
    let actual = csv::create_duckdb_relation(table_name, schema_name, &table_options).unwrap();

    assert_eq!(expected, actual);
}

#[test]
fn test_create_delta_view() {
    let table_name = "test";
    let schema_name = "main";
    let table_options = options_from(vec![(
        DeltaOption::Files.as_str().to_string(),
        "/data/delta".to_string(),
    )]);

    let expected = "CREATE VIEW IF NOT EXISTS main.test AS SELECT * FROM delta_scan('/data/delta')";
    let actual = delta::create_view(table_name, schema_name, &table_options).unwrap();

    assert_eq!(expected, actual);
}

#[test]
fn test_create_iceberg_view() {
    let table_name = "test";
    let schema_name = "main";
    let table_options = options_from(vec![(
        IcebergOption::Files.as_str().to_string(),
        "/data/iceberg".to_string(),
    )]);

    let expected =
        "CREATE VIEW IF NOT EXISTS main.test AS SELECT * FROM iceberg_scan('/data/iceberg')";
    let actual = iceberg::create_view(table_name, schema_name, &table_options).unwrap();

    assert_eq!(expected, actual);
}

#[test]
fn test_create_json_view_basic() {
    let table_name = "json_test";
    let schema_name = "main";
    let table_options = options_from(vec![(
        JsonOption::Files.as_str().to_string(),
        "/data/file1.json".to_string(),
    )]);

    let expected =
        "CREATE VIEW IF NOT EXISTS main.json_test AS SELECT * FROM read_json('/data/file1.json')";
    let actual = json::create_view(table_name, schema_name, &table_options).unwrap();

    assert_eq!(expected, actual);
}

#[test]
fn test_create_json_view_with_options() {
    let table_name = "json_test";
    let schema_name = "main";
    let table_options = options_from(vec![
        (
            JsonOption::Files.as_str().to_string(),
            "/data/file1.json, /data/file2.json".to_string(),
        ),
        (
            JsonOption::Columns.as_str().to_string(),
            "{'key1': 'INTEGER', 'key2': 'VARCHAR'}".to_string(),
        ),
        (
            JsonOption::Compression.as_str().to_string(),
            "uncompressed".to_string(),
        ),
        (
            JsonOption::ConvertStringsToIntegers.as_str().to_string(),
            "false".to_string(),
        ),
        (
            JsonOption::Dateformat.as_str().to_string(),
            "%d/%m/%Y".to_string(),
        ),
        (JsonOption::Filename.as_str().to_string(), "true".to_string()),
        (JsonOption::Format.as_str().to_string(), "array".to_string()),
        (
            JsonOption::HivePartitioning.as_str().to_string(),
            "false".to_string(),
        ),
        (
            JsonOption::IgnoreErrors.as_str().to_string(),
            "true".to_string(),
        ),
        (
            JsonOption::MaximumDepth.as_str().to_string(),
            "4096".to_string(),
        ),
        (
            JsonOption::MaximumObjectSize.as_str().to_string(),
            "65536".to_string(),
        ),
        (JsonOption::Records.as_str().to_string(), "auto".to_string()),
        (JsonOption::SampleSize.as_str().to_string(), "-1".to_string()),
        (JsonOption::Select.as_str().to_string(), "key1".to_string()),
        (
            JsonOption::Timestampformat.as_str().to_string(),
            "yyyy-MM-dd".to_string(),
        ),
        (JsonOption::UnionByName.as_str().to_string(), "true".to_string()),
    ]);

    let expected = "CREATE VIEW IF NOT EXISTS main.json_test AS SELECT key1 FROM read_json(['/data/file1.json', '/data/file2.json'], columns = {'key1': 'INTEGER', 'key2': 'VARCHAR'}, compression = 'uncompressed', convert_strings_to_integers = false, dateformat = '%d/%m/%Y', filename = true, format = 'array', hive_partitioning = false, ignore_errors = true, maximum_depth = 4096, maximum_object_size = 65536, records = auto, sample_size = -1, timestampformat = 'yyyy-MM-dd', union_by_name = true)";
    let actual = json::create_view(table_name, schema_name, &table_options).unwrap();

    assert_eq!(expected, actual);
}

#[test]
fn test_create_parquet_relation_single_file() {
    let table_name = "test";
    let schema_name = "main";
    let files = "/data/file.parquet";
    let table_options = options_from(vec![(
        ParquetOption::Files.as_str().to_string(),
        files.to_string(),
    )]);

    let expected =
        "CREATE VIEW IF NOT EXISTS main.test AS SELECT * FROM read_parquet('/data/file.parquet')";
    let actual = parquet::create_duckdb_relation(table_name, schema_name, &table_options).unwrap();

    assert_eq!(expected, actual);
}

#[test]
fn test_create_parquet_relation_multiple_files() {
    let table_name = "test";
    let schema_name = "main";
    let table_options = options_from(vec![(
        ParquetOption::Files.as_str().to_string(),
        "/data/file1.parquet, /data/file2.parquet".to_string(),
    )]);

    let expected = "CREATE VIEW IF NOT EXISTS main.test AS SELECT * FROM read_parquet(['/data/file1.parquet', '/data/file2.parquet'])";
    let actual = parquet::create_duckdb_relation(table_name, schema_name, &table_options).unwrap();

    assert_eq!(expected, actual);
}

#[test]
fn test_create_parquet_relation_with_options() {
    let table_name = "test";
    let schema_name = "main";
    let table_options = options_from(vec![
        (
            ParquetOption::Files.as_str().to_string(),
            "/data/file.parquet".to_string(),
        ),
        (
            ParquetOption::BinaryAsString.as_str().to_string(),
            "true".to_string(),
        ),
        (
            ParquetOption::FileName.as_str().to_string(),
            "false".to_string(),
        ),
        (
            ParquetOption::FileRowNumber.as_str().to_string(),
            "true".to_string(),
        ),
        (
            ParquetOption::HivePartitioning.as_str().to_string(),
            "true".to_string(),
        ),
        (
            ParquetOption::HiveTypes.as_str().to_string(),
            "{'release': DATE, 'orders': BIGINT}".to_string(),
        ),
        (
            ParquetOption::HiveTypesAutocast.as_str().to_string(),
            "true".to_string(),
        ),
        (
            ParquetOption::UnionByName.as_str().to_string(),
            "true".to_string(),
        ),
    ]);

    let expected = "CREATE VIEW IF NOT EXISTS main.test AS SELECT * FROM read_parquet('/data/file.parquet', binary_as_string = true, filename = false, file_row_number = true, hive_partitioning = true, hive_types = {'release': DATE, 'orders': BIGINT}, hive_types_autocast = true, union_by_name = true)";
    let actual = parquet::create_duckdb_relation(table_name, schema_name, &table_options).unwrap();

    assert_eq!(expected, actual);
}

#[test]
fn test_create_spatial_view() {
    let table_name = "test";
    let schema_name = "main";
    let table_options = options_from(vec![(
        SpatialOption::Files.as_str().to_string(),
        "/data/spatial".to_string(),
    )]);

    let expected = "CREATE VIEW IF NOT EXISTS main.test AS SELECT * FROM st_read('/data/spatial')";
    let actual = spatial::create_duckdb_relation(table_name, schema_name, &table_options).unwrap();

    assert_eq!(expected, actual);
}
