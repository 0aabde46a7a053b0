#pragma code_page(65001)

// The icon of the executable: logo.ico lies beside the package's manifest.
1 ICON "logo.ico"

1 VERSIONINFO
FILEVERSION 0, 0, 1525, 57600
PRODUCTVERSION 0, 0, 1525, 57600
FILEOS 0x40004
FILETYPE 0x1
{
    BLOCK "StringFileInfo"
    {
        BLOCK "000004b0"
        {
            VALUE "ProductName", "Toonie Clean Ram"
            VALUE "FileDescription", "Toonie Clean Ram - Công cụ dọn RAM VPS"
            VALUE "CompanyName", "Toonie (Tú Nguyễn)"
            VALUE "LegalCopyright", "© Toonie (Tú Nguyễn)"
            VALUE "OriginalFilename", "CleanRamVPS.exe"
            VALUE "InternalName", "CleanRamVPS"
        }
    }
    BLOCK "VarFileInfo"
    {
        VALUE "Translation", 0x0, 0x04b0
    }
}
